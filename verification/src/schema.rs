//! The hub's database schema, as the ordered steps that set it up on a
//! fresh or an older database. Creating a table or seeding a row must
//! succeed; adding a column may fail harmlessly where the column exists.

use vstd::prelude::*;

verus! {

/// One step of the schema setup.
#[derive(Clone, Copy, Debug)]
pub struct SchemaStep {
    pub sql: &'static str,
    /// Whether a failure of the step stops the setup.
    pub required: bool,
}

/// The number of schema steps.
pub const SCHEMA_STEP_COUNT: usize = 46;

/// Whether step `i` must succeed: every step but the column additions,
/// which fail on a database that already has the column.
pub open spec fn step_required_spec(i: int) -> bool {
    !(i == 3 || i == 4 || i == 5 || i == 6 || i == 8 || i == 11 || i == 16 || i == 31 || i == 32 || i == 44)
}

/// The statement that step `i` runs.
pub open spec fn schema_sql(i: int) -> Seq<char> {
    if i == 0 {
        "CREATE TABLE IF NOT EXISTS users ( public_key TEXT PRIMARY KEY, display_name TEXT, first_seen_at INTEGER NOT NULL, last_seen_at INTEGER NOT NULL )"@
    } else if i == 1 {
        "CREATE TABLE IF NOT EXISTS sessions ( token TEXT PRIMARY KEY, public_key TEXT NOT NULL REFERENCES users(public_key), created_at INTEGER NOT NULL )"@
    } else if i == 2 {
        "CREATE TABLE IF NOT EXISTS channels ( id TEXT PRIMARY KEY, name TEXT NOT NULL UNIQUE, created_by TEXT NOT NULL REFERENCES users(public_key), parent_id TEXT REFERENCES channels(id), is_category INTEGER NOT NULL DEFAULT 0, display_order INTEGER NOT NULL DEFAULT 0, description TEXT, created_at INTEGER NOT NULL )"@
    } else if i == 3 {
        "ALTER TABLE channels ADD COLUMN parent_id TEXT REFERENCES channels(id)"@
    } else if i == 4 {
        "ALTER TABLE channels ADD COLUMN is_category INTEGER NOT NULL DEFAULT 0"@
    } else if i == 5 {
        "ALTER TABLE channels ADD COLUMN display_order INTEGER NOT NULL DEFAULT 0"@
    } else if i == 6 {
        "ALTER TABLE channels ADD COLUMN description TEXT"@
    } else if i == 7 {
        "CREATE TABLE IF NOT EXISTS messages ( id TEXT PRIMARY KEY, channel_id TEXT NOT NULL REFERENCES channels(id), sender TEXT NOT NULL REFERENCES users(public_key), content TEXT NOT NULL, created_at INTEGER NOT NULL, edited_at INTEGER )"@
    } else if i == 8 {
        "ALTER TABLE messages ADD COLUMN attachments TEXT"@
    } else if i == 9 {
        "CREATE TABLE IF NOT EXISTS message_reactions ( message_id TEXT NOT NULL REFERENCES messages(id) ON DELETE CASCADE, emoji TEXT NOT NULL, user_key TEXT NOT NULL REFERENCES users(public_key), created_at INTEGER NOT NULL, PRIMARY KEY (message_id, emoji, user_key) )"@
    } else if i == 10 {
        "CREATE INDEX IF NOT EXISTS idx_reactions_message ON message_reactions(message_id)"@
    } else if i == 11 {
        "ALTER TABLE messages ADD COLUMN edited_at INTEGER"@
    } else if i == 12 {
        "CREATE TABLE IF NOT EXISTS peers ( public_key TEXT PRIMARY KEY, name TEXT NOT NULL, url TEXT NOT NULL, added_at INTEGER NOT NULL )"@
    } else if i == 13 {
        "CREATE TABLE IF NOT EXISTS federated_channels ( id TEXT PRIMARY KEY, peer_public_key TEXT NOT NULL REFERENCES peers(public_key), remote_id TEXT NOT NULL, name TEXT NOT NULL, created_at INTEGER NOT NULL, last_synced_at INTEGER NOT NULL, UNIQUE(peer_public_key, remote_id) )"@
    } else if i == 14 {
        "CREATE TABLE IF NOT EXISTS federated_messages ( id TEXT PRIMARY KEY, fed_channel_id TEXT NOT NULL REFERENCES federated_channels(id), remote_id TEXT NOT NULL, sender TEXT NOT NULL, content TEXT NOT NULL, created_at INTEGER NOT NULL, UNIQUE(fed_channel_id, remote_id) )"@
    } else if i == 15 {
        "CREATE TABLE IF NOT EXISTS roles ( id TEXT PRIMARY KEY, name TEXT NOT NULL UNIQUE, priority INTEGER NOT NULL DEFAULT 0, display_separately INTEGER NOT NULL DEFAULT 0, created_at INTEGER NOT NULL )"@
    } else if i == 16 {
        "ALTER TABLE roles ADD COLUMN display_separately INTEGER NOT NULL DEFAULT 0"@
    } else if i == 17 {
        "CREATE TABLE IF NOT EXISTS role_permissions ( role_id TEXT NOT NULL REFERENCES roles(id), permission TEXT NOT NULL, PRIMARY KEY (role_id, permission) )"@
    } else if i == 18 {
        "CREATE TABLE IF NOT EXISTS user_roles ( user_public_key TEXT NOT NULL REFERENCES users(public_key), role_id TEXT NOT NULL REFERENCES roles(id), assigned_at INTEGER NOT NULL, PRIMARY KEY (user_public_key, role_id) )"@
    } else if i == 19 {
        "INSERT OR IGNORE INTO roles (id, name, priority, created_at) VALUES ('builtin-everyone', '@everyone', 0, 0)"@
    } else if i == 20 {
        "INSERT OR IGNORE INTO roles (id, name, priority, created_at) VALUES ('builtin-owner', 'Owner', 999999, 0)"@
    } else if i == 21 {
        "INSERT OR IGNORE INTO role_permissions (role_id, permission) VALUES ('builtin-everyone', 'send_messages')"@
    } else if i == 22 {
        "INSERT OR IGNORE INTO role_permissions (role_id, permission) VALUES ('builtin-everyone', 'read_messages')"@
    } else if i == 23 {
        "INSERT OR IGNORE INTO role_permissions (role_id, permission) VALUES ('builtin-owner', 'admin')"@
    } else if i == 24 {
        "CREATE TABLE IF NOT EXISTS bans ( target_public_key TEXT PRIMARY KEY REFERENCES users(public_key), banned_by TEXT NOT NULL, reason TEXT, created_at INTEGER NOT NULL )"@
    } else if i == 25 {
        "CREATE TABLE IF NOT EXISTS mutes ( target_public_key TEXT PRIMARY KEY REFERENCES users(public_key), muted_by TEXT NOT NULL, reason TEXT, expires_at INTEGER, created_at INTEGER NOT NULL )"@
    } else if i == 26 {
        "CREATE TABLE IF NOT EXISTS invites ( code TEXT PRIMARY KEY, created_by TEXT NOT NULL, max_uses INTEGER, uses INTEGER NOT NULL DEFAULT 0, expires_at INTEGER, created_at INTEGER NOT NULL )"@
    } else if i == 27 {
        "CREATE TABLE IF NOT EXISTS hub_settings ( key TEXT PRIMARY KEY, value TEXT NOT NULL )"@
    } else if i == 28 {
        "INSERT OR IGNORE INTO hub_settings (key, value) VALUES ('invite_only', 'false')"@
    } else if i == 29 {
        "INSERT OR IGNORE INTO hub_settings (key, value) VALUES ('min_security_level', '0')"@
    } else if i == 30 {
        "INSERT OR IGNORE INTO hub_settings (key, value) VALUES ('require_approval', 'false')"@
    } else if i == 31 {
        "ALTER TABLE users ADD COLUMN approval_status TEXT NOT NULL DEFAULT 'approved'"@
    } else if i == 32 {
        "ALTER TABLE users ADD COLUMN avatar TEXT"@
    } else if i == 33 {
        "CREATE TABLE IF NOT EXISTS hub_games ( id TEXT PRIMARY KEY, name TEXT NOT NULL, description TEXT, version TEXT NOT NULL, entry_url TEXT NOT NULL, thumbnail_url TEXT, author TEXT, min_players INTEGER NOT NULL DEFAULT 1, max_players INTEGER NOT NULL DEFAULT 1, installed_by TEXT NOT NULL REFERENCES users(public_key), installed_at INTEGER NOT NULL, manifest_url TEXT NOT NULL )"@
    } else if i == 34 {
        "CREATE TABLE IF NOT EXISTS alliances ( id TEXT PRIMARY KEY, name TEXT NOT NULL, created_by TEXT NOT NULL, created_at INTEGER NOT NULL )"@
    } else if i == 35 {
        "CREATE TABLE IF NOT EXISTS alliance_members ( alliance_id TEXT NOT NULL REFERENCES alliances(id), hub_public_key TEXT NOT NULL, hub_name TEXT NOT NULL, hub_url TEXT NOT NULL, joined_at INTEGER NOT NULL, PRIMARY KEY (alliance_id, hub_public_key) )"@
    } else if i == 36 {
        "CREATE TABLE IF NOT EXISTS alliance_shared_channels ( alliance_id TEXT NOT NULL REFERENCES alliances(id), channel_id TEXT NOT NULL REFERENCES channels(id), shared_at INTEGER NOT NULL, PRIMARY KEY (alliance_id, channel_id) )"@
    } else if i == 37 {
        "CREATE TABLE IF NOT EXISTS channel_bans ( channel_id TEXT NOT NULL REFERENCES channels(id), target_public_key TEXT NOT NULL REFERENCES users(public_key), banned_by TEXT NOT NULL, reason TEXT, created_at INTEGER NOT NULL, PRIMARY KEY (channel_id, target_public_key) )"@
    } else if i == 38 {
        "CREATE TABLE IF NOT EXISTS voice_mutes ( target_public_key TEXT PRIMARY KEY REFERENCES users(public_key), muted_by TEXT NOT NULL, reason TEXT, created_at INTEGER NOT NULL )"@
    } else if i == 39 {
        "CREATE TABLE IF NOT EXISTS channel_settings ( channel_id TEXT PRIMARY KEY REFERENCES channels(id), min_talk_power INTEGER NOT NULL DEFAULT 0 )"@
    } else if i == 40 {
        "CREATE TABLE IF NOT EXISTS conversations ( id TEXT PRIMARY KEY, conv_type TEXT NOT NULL DEFAULT 'dm', created_at INTEGER NOT NULL )"@
    } else if i == 41 {
        "CREATE TABLE IF NOT EXISTS conversation_members ( conversation_id TEXT NOT NULL REFERENCES conversations(id), public_key TEXT NOT NULL REFERENCES users(public_key), joined_at INTEGER NOT NULL, PRIMARY KEY (conversation_id, public_key) )"@
    } else if i == 42 {
        "CREATE TABLE IF NOT EXISTS friends ( user_a TEXT NOT NULL REFERENCES users(public_key), user_b TEXT NOT NULL REFERENCES users(public_key), status TEXT NOT NULL DEFAULT 'pending', created_at INTEGER NOT NULL, PRIMARY KEY (user_a, user_b) )"@
    } else if i == 43 {
        "CREATE TABLE IF NOT EXISTS dm_messages ( id TEXT PRIMARY KEY, conversation_id TEXT NOT NULL, sender TEXT NOT NULL, content TEXT NOT NULL, signature TEXT, created_at INTEGER NOT NULL )"@
    } else if i == 44 {
        "ALTER TABLE conversation_members ADD COLUMN hub_url TEXT"@
    } else {
        "CREATE TABLE IF NOT EXISTS dm_outbox ( message_id TEXT NOT NULL REFERENCES dm_messages(id), recipient_hub_url TEXT NOT NULL, attempts INTEGER NOT NULL DEFAULT 0, next_attempt_at INTEGER NOT NULL, last_error TEXT, bounced_at INTEGER, PRIMARY KEY (message_id, recipient_hub_url) )"@
    }
}

/// The schema steps, in the order they run: step `i` runs `schema_sql(i)`.
pub fn schema_steps() -> (res: Vec<SchemaStep>)
    ensures
        res@.len() == SCHEMA_STEP_COUNT,
        forall|i: int| 0 <= i < SCHEMA_STEP_COUNT ==> (#[trigger] res@[i]).required == step_required_spec(i),
        forall|i: int| 0 <= i < SCHEMA_STEP_COUNT ==> (#[trigger] res@[i]).sql@ == schema_sql(i),
{
    let mut steps: Vec<SchemaStep> = Vec::new();
    steps.push(SchemaStep {
        sql: "CREATE TABLE IF NOT EXISTS users ( public_key TEXT PRIMARY KEY, display_name TEXT, first_seen_at INTEGER NOT NULL, last_seen_at INTEGER NOT NULL )",
        required: true,
    });
    steps.push(SchemaStep {
        sql: "CREATE TABLE IF NOT EXISTS sessions ( token TEXT PRIMARY KEY, public_key TEXT NOT NULL REFERENCES users(public_key), created_at INTEGER NOT NULL )",
        required: true,
    });
    steps.push(SchemaStep {
        sql: "CREATE TABLE IF NOT EXISTS channels ( id TEXT PRIMARY KEY, name TEXT NOT NULL UNIQUE, created_by TEXT NOT NULL REFERENCES users(public_key), parent_id TEXT REFERENCES channels(id), is_category INTEGER NOT NULL DEFAULT 0, display_order INTEGER NOT NULL DEFAULT 0, description TEXT, created_at INTEGER NOT NULL )",
        required: true,
    });
    steps.push(SchemaStep {
        sql: "ALTER TABLE channels ADD COLUMN parent_id TEXT REFERENCES channels(id)",
        required: false,
    });
    steps.push(SchemaStep {
        sql: "ALTER TABLE channels ADD COLUMN is_category INTEGER NOT NULL DEFAULT 0",
        required: false,
    });
    steps.push(SchemaStep {
        sql: "ALTER TABLE channels ADD COLUMN display_order INTEGER NOT NULL DEFAULT 0",
        required: false,
    });
    steps.push(SchemaStep {
        sql: "ALTER TABLE channels ADD COLUMN description TEXT",
        required: false,
    });
    steps.push(SchemaStep {
        sql: "CREATE TABLE IF NOT EXISTS messages ( id TEXT PRIMARY KEY, channel_id TEXT NOT NULL REFERENCES channels(id), sender TEXT NOT NULL REFERENCES users(public_key), content TEXT NOT NULL, created_at INTEGER NOT NULL, edited_at INTEGER )",
        required: true,
    });
    steps.push(SchemaStep {
        sql: "ALTER TABLE messages ADD COLUMN attachments TEXT",
        required: false,
    });
    steps.push(SchemaStep {
        sql: "CREATE TABLE IF NOT EXISTS message_reactions ( message_id TEXT NOT NULL REFERENCES messages(id) ON DELETE CASCADE, emoji TEXT NOT NULL, user_key TEXT NOT NULL REFERENCES users(public_key), created_at INTEGER NOT NULL, PRIMARY KEY (message_id, emoji, user_key) )",
        required: true,
    });
    steps.push(SchemaStep {
        sql: "CREATE INDEX IF NOT EXISTS idx_reactions_message ON message_reactions(message_id)",
        required: true,
    });
    steps.push(SchemaStep {
        sql: "ALTER TABLE messages ADD COLUMN edited_at INTEGER",
        required: false,
    });
    steps.push(SchemaStep {
        sql: "CREATE TABLE IF NOT EXISTS peers ( public_key TEXT PRIMARY KEY, name TEXT NOT NULL, url TEXT NOT NULL, added_at INTEGER NOT NULL )",
        required: true,
    });
    steps.push(SchemaStep {
        sql: "CREATE TABLE IF NOT EXISTS federated_channels ( id TEXT PRIMARY KEY, peer_public_key TEXT NOT NULL REFERENCES peers(public_key), remote_id TEXT NOT NULL, name TEXT NOT NULL, created_at INTEGER NOT NULL, last_synced_at INTEGER NOT NULL, UNIQUE(peer_public_key, remote_id) )",
        required: true,
    });
    steps.push(SchemaStep {
        sql: "CREATE TABLE IF NOT EXISTS federated_messages ( id TEXT PRIMARY KEY, fed_channel_id TEXT NOT NULL REFERENCES federated_channels(id), remote_id TEXT NOT NULL, sender TEXT NOT NULL, content TEXT NOT NULL, created_at INTEGER NOT NULL, UNIQUE(fed_channel_id, remote_id) )",
        required: true,
    });
    steps.push(SchemaStep {
        sql: "CREATE TABLE IF NOT EXISTS roles ( id TEXT PRIMARY KEY, name TEXT NOT NULL UNIQUE, priority INTEGER NOT NULL DEFAULT 0, display_separately INTEGER NOT NULL DEFAULT 0, created_at INTEGER NOT NULL )",
        required: true,
    });
    steps.push(SchemaStep {
        sql: "ALTER TABLE roles ADD COLUMN display_separately INTEGER NOT NULL DEFAULT 0",
        required: false,
    });
    steps.push(SchemaStep {
        sql: "CREATE TABLE IF NOT EXISTS role_permissions ( role_id TEXT NOT NULL REFERENCES roles(id), permission TEXT NOT NULL, PRIMARY KEY (role_id, permission) )",
        required: true,
    });
    steps.push(SchemaStep {
        sql: "CREATE TABLE IF NOT EXISTS user_roles ( user_public_key TEXT NOT NULL REFERENCES users(public_key), role_id TEXT NOT NULL REFERENCES roles(id), assigned_at INTEGER NOT NULL, PRIMARY KEY (user_public_key, role_id) )",
        required: true,
    });
    steps.push(SchemaStep {
        sql: "INSERT OR IGNORE INTO roles (id, name, priority, created_at) VALUES ('builtin-everyone', '@everyone', 0, 0)",
        required: true,
    });
    steps.push(SchemaStep {
        sql: "INSERT OR IGNORE INTO roles (id, name, priority, created_at) VALUES ('builtin-owner', 'Owner', 999999, 0)",
        required: true,
    });
    steps.push(SchemaStep {
        sql: "INSERT OR IGNORE INTO role_permissions (role_id, permission) VALUES ('builtin-everyone', 'send_messages')",
        required: true,
    });
    steps.push(SchemaStep {
        sql: "INSERT OR IGNORE INTO role_permissions (role_id, permission) VALUES ('builtin-everyone', 'read_messages')",
        required: true,
    });
    steps.push(SchemaStep {
        sql: "INSERT OR IGNORE INTO role_permissions (role_id, permission) VALUES ('builtin-owner', 'admin')",
        required: true,
    });
    steps.push(SchemaStep {
        sql: "CREATE TABLE IF NOT EXISTS bans ( target_public_key TEXT PRIMARY KEY REFERENCES users(public_key), banned_by TEXT NOT NULL, reason TEXT, created_at INTEGER NOT NULL )",
        required: true,
    });
    steps.push(SchemaStep {
        sql: "CREATE TABLE IF NOT EXISTS mutes ( target_public_key TEXT PRIMARY KEY REFERENCES users(public_key), muted_by TEXT NOT NULL, reason TEXT, expires_at INTEGER, created_at INTEGER NOT NULL )",
        required: true,
    });
    steps.push(SchemaStep {
        sql: "CREATE TABLE IF NOT EXISTS invites ( code TEXT PRIMARY KEY, created_by TEXT NOT NULL, max_uses INTEGER, uses INTEGER NOT NULL DEFAULT 0, expires_at INTEGER, created_at INTEGER NOT NULL )",
        required: true,
    });
    steps.push(SchemaStep {
        sql: "CREATE TABLE IF NOT EXISTS hub_settings ( key TEXT PRIMARY KEY, value TEXT NOT NULL )",
        required: true,
    });
    steps.push(SchemaStep {
        sql: "INSERT OR IGNORE INTO hub_settings (key, value) VALUES ('invite_only', 'false')",
        required: true,
    });
    steps.push(SchemaStep {
        sql: "INSERT OR IGNORE INTO hub_settings (key, value) VALUES ('min_security_level', '0')",
        required: true,
    });
    steps.push(SchemaStep {
        sql: "INSERT OR IGNORE INTO hub_settings (key, value) VALUES ('require_approval', 'false')",
        required: true,
    });
    steps.push(SchemaStep {
        sql: "ALTER TABLE users ADD COLUMN approval_status TEXT NOT NULL DEFAULT 'approved'",
        required: false,
    });
    steps.push(SchemaStep {
        sql: "ALTER TABLE users ADD COLUMN avatar TEXT",
        required: false,
    });
    steps.push(SchemaStep {
        sql: "CREATE TABLE IF NOT EXISTS hub_games ( id TEXT PRIMARY KEY, name TEXT NOT NULL, description TEXT, version TEXT NOT NULL, entry_url TEXT NOT NULL, thumbnail_url TEXT, author TEXT, min_players INTEGER NOT NULL DEFAULT 1, max_players INTEGER NOT NULL DEFAULT 1, installed_by TEXT NOT NULL REFERENCES users(public_key), installed_at INTEGER NOT NULL, manifest_url TEXT NOT NULL )",
        required: true,
    });
    steps.push(SchemaStep {
        sql: "CREATE TABLE IF NOT EXISTS alliances ( id TEXT PRIMARY KEY, name TEXT NOT NULL, created_by TEXT NOT NULL, created_at INTEGER NOT NULL )",
        required: true,
    });
    steps.push(SchemaStep {
        sql: "CREATE TABLE IF NOT EXISTS alliance_members ( alliance_id TEXT NOT NULL REFERENCES alliances(id), hub_public_key TEXT NOT NULL, hub_name TEXT NOT NULL, hub_url TEXT NOT NULL, joined_at INTEGER NOT NULL, PRIMARY KEY (alliance_id, hub_public_key) )",
        required: true,
    });
    steps.push(SchemaStep {
        sql: "CREATE TABLE IF NOT EXISTS alliance_shared_channels ( alliance_id TEXT NOT NULL REFERENCES alliances(id), channel_id TEXT NOT NULL REFERENCES channels(id), shared_at INTEGER NOT NULL, PRIMARY KEY (alliance_id, channel_id) )",
        required: true,
    });
    steps.push(SchemaStep {
        sql: "CREATE TABLE IF NOT EXISTS channel_bans ( channel_id TEXT NOT NULL REFERENCES channels(id), target_public_key TEXT NOT NULL REFERENCES users(public_key), banned_by TEXT NOT NULL, reason TEXT, created_at INTEGER NOT NULL, PRIMARY KEY (channel_id, target_public_key) )",
        required: true,
    });
    steps.push(SchemaStep {
        sql: "CREATE TABLE IF NOT EXISTS voice_mutes ( target_public_key TEXT PRIMARY KEY REFERENCES users(public_key), muted_by TEXT NOT NULL, reason TEXT, created_at INTEGER NOT NULL )",
        required: true,
    });
    steps.push(SchemaStep {
        sql: "CREATE TABLE IF NOT EXISTS channel_settings ( channel_id TEXT PRIMARY KEY REFERENCES channels(id), min_talk_power INTEGER NOT NULL DEFAULT 0 )",
        required: true,
    });
    steps.push(SchemaStep {
        sql: "CREATE TABLE IF NOT EXISTS conversations ( id TEXT PRIMARY KEY, conv_type TEXT NOT NULL DEFAULT 'dm', created_at INTEGER NOT NULL )",
        required: true,
    });
    steps.push(SchemaStep {
        sql: "CREATE TABLE IF NOT EXISTS conversation_members ( conversation_id TEXT NOT NULL REFERENCES conversations(id), public_key TEXT NOT NULL REFERENCES users(public_key), joined_at INTEGER NOT NULL, PRIMARY KEY (conversation_id, public_key) )",
        required: true,
    });
    steps.push(SchemaStep {
        sql: "CREATE TABLE IF NOT EXISTS friends ( user_a TEXT NOT NULL REFERENCES users(public_key), user_b TEXT NOT NULL REFERENCES users(public_key), status TEXT NOT NULL DEFAULT 'pending', created_at INTEGER NOT NULL, PRIMARY KEY (user_a, user_b) )",
        required: true,
    });
    steps.push(SchemaStep {
        sql: "CREATE TABLE IF NOT EXISTS dm_messages ( id TEXT PRIMARY KEY, conversation_id TEXT NOT NULL, sender TEXT NOT NULL, content TEXT NOT NULL, signature TEXT, created_at INTEGER NOT NULL )",
        required: true,
    });
    steps.push(SchemaStep {
        sql: "ALTER TABLE conversation_members ADD COLUMN hub_url TEXT",
        required: false,
    });
    steps.push(SchemaStep {
        sql: "CREATE TABLE IF NOT EXISTS dm_outbox ( message_id TEXT NOT NULL REFERENCES dm_messages(id), recipient_hub_url TEXT NOT NULL, attempts INTEGER NOT NULL DEFAULT 0, next_attempt_at INTEGER NOT NULL, last_error TEXT, bounced_at INTEGER, PRIMARY KEY (message_id, recipient_hub_url) )",
        required: true,
    });
    steps
}

/// Whether a statement can run again on a database that already holds
/// what it makes: a table or an index created only where it is missing,
/// or rows inserted only where they are missing.
pub open spec fn is_rerunnable_sql(sql: Seq<char>) -> bool {
    ||| sql.take(27) == "CREATE TABLE IF NOT EXISTS "@
    ||| sql.take(27) == "CREATE INDEX IF NOT EXISTS "@
    ||| sql.take(22) == "INSERT OR IGNORE INTO "@
}

/// Whether a statement alters an existing table.
pub open spec fn is_table_alteration(sql: Seq<char>) -> bool {
    sql.take(12) == "ALTER TABLE "@
}

/// Whether step `i` is safe to run on a database set up before: a required
/// step can run again, and a step that may fail alters a table (adding a
/// column that the database may already have).
pub open spec fn step_rerunnable(i: int) -> bool {
    if step_required_spec(i) {
        is_rerunnable_sql(schema_sql(i))
    } else {
        is_table_alteration(schema_sql(i))
    }
}

/// Setting up the schema again on a database it was set up on succeeds:
/// every required step creates or seeds only what is missing, and every
/// other step alters a table and is allowed to fail.
pub proof fn law_schema_rerunnable()
    ensures
        forall|i: int| 0 <= i < SCHEMA_STEP_COUNT ==> step_rerunnable(i),
{
    assert(step_rerunnable(0)) by {
        reveal_strlit("CREATE TABLE IF NOT EXISTS users ( public_key TEXT PRIMARY KEY, display_name TEXT, first_seen_at INTEGER NOT NULL, last_seen_at INTEGER NOT NULL )");
        reveal_strlit("CREATE TABLE IF NOT EXISTS ");
        assert(schema_sql(0).take(27) =~= "CREATE TABLE IF NOT EXISTS "@);
    }
    assert(step_rerunnable(1)) by {
        reveal_strlit("CREATE TABLE IF NOT EXISTS sessions ( token TEXT PRIMARY KEY, public_key TEXT NOT NULL REFERENCES users(public_key), created_at INTEGER NOT NULL )");
        reveal_strlit("CREATE TABLE IF NOT EXISTS ");
        assert(schema_sql(1).take(27) =~= "CREATE TABLE IF NOT EXISTS "@);
    }
    assert(step_rerunnable(2)) by {
        reveal_strlit("CREATE TABLE IF NOT EXISTS channels ( id TEXT PRIMARY KEY, name TEXT NOT NULL UNIQUE, created_by TEXT NOT NULL REFERENCES users(public_key), parent_id TEXT REFERENCES channels(id), is_category INTEGER NOT NULL DEFAULT 0, display_order INTEGER NOT NULL DEFAULT 0, description TEXT, created_at INTEGER NOT NULL )");
        reveal_strlit("CREATE TABLE IF NOT EXISTS ");
        assert(schema_sql(2).take(27) =~= "CREATE TABLE IF NOT EXISTS "@);
    }
    assert(step_rerunnable(3)) by {
        reveal_strlit("ALTER TABLE channels ADD COLUMN parent_id TEXT REFERENCES channels(id)");
        reveal_strlit("ALTER TABLE ");
        assert(schema_sql(3).take(12) =~= "ALTER TABLE "@);
    }
    assert(step_rerunnable(4)) by {
        reveal_strlit("ALTER TABLE channels ADD COLUMN is_category INTEGER NOT NULL DEFAULT 0");
        reveal_strlit("ALTER TABLE ");
        assert(schema_sql(4).take(12) =~= "ALTER TABLE "@);
    }
    assert(step_rerunnable(5)) by {
        reveal_strlit("ALTER TABLE channels ADD COLUMN display_order INTEGER NOT NULL DEFAULT 0");
        reveal_strlit("ALTER TABLE ");
        assert(schema_sql(5).take(12) =~= "ALTER TABLE "@);
    }
    assert(step_rerunnable(6)) by {
        reveal_strlit("ALTER TABLE channels ADD COLUMN description TEXT");
        reveal_strlit("ALTER TABLE ");
        assert(schema_sql(6).take(12) =~= "ALTER TABLE "@);
    }
    assert(step_rerunnable(7)) by {
        reveal_strlit("CREATE TABLE IF NOT EXISTS messages ( id TEXT PRIMARY KEY, channel_id TEXT NOT NULL REFERENCES channels(id), sender TEXT NOT NULL REFERENCES users(public_key), content TEXT NOT NULL, created_at INTEGER NOT NULL, edited_at INTEGER )");
        reveal_strlit("CREATE TABLE IF NOT EXISTS ");
        assert(schema_sql(7).take(27) =~= "CREATE TABLE IF NOT EXISTS "@);
    }
    assert(step_rerunnable(8)) by {
        reveal_strlit("ALTER TABLE messages ADD COLUMN attachments TEXT");
        reveal_strlit("ALTER TABLE ");
        assert(schema_sql(8).take(12) =~= "ALTER TABLE "@);
    }
    assert(step_rerunnable(9)) by {
        reveal_strlit("CREATE TABLE IF NOT EXISTS message_reactions ( message_id TEXT NOT NULL REFERENCES messages(id) ON DELETE CASCADE, emoji TEXT NOT NULL, user_key TEXT NOT NULL REFERENCES users(public_key), created_at INTEGER NOT NULL, PRIMARY KEY (message_id, emoji, user_key) )");
        reveal_strlit("CREATE TABLE IF NOT EXISTS ");
        assert(schema_sql(9).take(27) =~= "CREATE TABLE IF NOT EXISTS "@);
    }
    assert(step_rerunnable(10)) by {
        reveal_strlit("CREATE INDEX IF NOT EXISTS idx_reactions_message ON message_reactions(message_id)");
        reveal_strlit("CREATE INDEX IF NOT EXISTS ");
        assert(schema_sql(10).take(27) =~= "CREATE INDEX IF NOT EXISTS "@);
    }
    assert(step_rerunnable(11)) by {
        reveal_strlit("ALTER TABLE messages ADD COLUMN edited_at INTEGER");
        reveal_strlit("ALTER TABLE ");
        assert(schema_sql(11).take(12) =~= "ALTER TABLE "@);
    }
    assert(step_rerunnable(12)) by {
        reveal_strlit("CREATE TABLE IF NOT EXISTS peers ( public_key TEXT PRIMARY KEY, name TEXT NOT NULL, url TEXT NOT NULL, added_at INTEGER NOT NULL )");
        reveal_strlit("CREATE TABLE IF NOT EXISTS ");
        assert(schema_sql(12).take(27) =~= "CREATE TABLE IF NOT EXISTS "@);
    }
    assert(step_rerunnable(13)) by {
        reveal_strlit("CREATE TABLE IF NOT EXISTS federated_channels ( id TEXT PRIMARY KEY, peer_public_key TEXT NOT NULL REFERENCES peers(public_key), remote_id TEXT NOT NULL, name TEXT NOT NULL, created_at INTEGER NOT NULL, last_synced_at INTEGER NOT NULL, UNIQUE(peer_public_key, remote_id) )");
        reveal_strlit("CREATE TABLE IF NOT EXISTS ");
        assert(schema_sql(13).take(27) =~= "CREATE TABLE IF NOT EXISTS "@);
    }
    assert(step_rerunnable(14)) by {
        reveal_strlit("CREATE TABLE IF NOT EXISTS federated_messages ( id TEXT PRIMARY KEY, fed_channel_id TEXT NOT NULL REFERENCES federated_channels(id), remote_id TEXT NOT NULL, sender TEXT NOT NULL, content TEXT NOT NULL, created_at INTEGER NOT NULL, UNIQUE(fed_channel_id, remote_id) )");
        reveal_strlit("CREATE TABLE IF NOT EXISTS ");
        assert(schema_sql(14).take(27) =~= "CREATE TABLE IF NOT EXISTS "@);
    }
    assert(step_rerunnable(15)) by {
        reveal_strlit("CREATE TABLE IF NOT EXISTS roles ( id TEXT PRIMARY KEY, name TEXT NOT NULL UNIQUE, priority INTEGER NOT NULL DEFAULT 0, display_separately INTEGER NOT NULL DEFAULT 0, created_at INTEGER NOT NULL )");
        reveal_strlit("CREATE TABLE IF NOT EXISTS ");
        assert(schema_sql(15).take(27) =~= "CREATE TABLE IF NOT EXISTS "@);
    }
    assert(step_rerunnable(16)) by {
        reveal_strlit("ALTER TABLE roles ADD COLUMN display_separately INTEGER NOT NULL DEFAULT 0");
        reveal_strlit("ALTER TABLE ");
        assert(schema_sql(16).take(12) =~= "ALTER TABLE "@);
    }
    assert(step_rerunnable(17)) by {
        reveal_strlit("CREATE TABLE IF NOT EXISTS role_permissions ( role_id TEXT NOT NULL REFERENCES roles(id), permission TEXT NOT NULL, PRIMARY KEY (role_id, permission) )");
        reveal_strlit("CREATE TABLE IF NOT EXISTS ");
        assert(schema_sql(17).take(27) =~= "CREATE TABLE IF NOT EXISTS "@);
    }
    assert(step_rerunnable(18)) by {
        reveal_strlit("CREATE TABLE IF NOT EXISTS user_roles ( user_public_key TEXT NOT NULL REFERENCES users(public_key), role_id TEXT NOT NULL REFERENCES roles(id), assigned_at INTEGER NOT NULL, PRIMARY KEY (user_public_key, role_id) )");
        reveal_strlit("CREATE TABLE IF NOT EXISTS ");
        assert(schema_sql(18).take(27) =~= "CREATE TABLE IF NOT EXISTS "@);
    }
    assert(step_rerunnable(19)) by {
        reveal_strlit("INSERT OR IGNORE INTO roles (id, name, priority, created_at) VALUES ('builtin-everyone', '@everyone', 0, 0)");
        reveal_strlit("INSERT OR IGNORE INTO ");
        assert(schema_sql(19).take(22) =~= "INSERT OR IGNORE INTO "@);
    }
    assert(step_rerunnable(20)) by {
        reveal_strlit("INSERT OR IGNORE INTO roles (id, name, priority, created_at) VALUES ('builtin-owner', 'Owner', 999999, 0)");
        reveal_strlit("INSERT OR IGNORE INTO ");
        assert(schema_sql(20).take(22) =~= "INSERT OR IGNORE INTO "@);
    }
    assert(step_rerunnable(21)) by {
        reveal_strlit("INSERT OR IGNORE INTO role_permissions (role_id, permission) VALUES ('builtin-everyone', 'send_messages')");
        reveal_strlit("INSERT OR IGNORE INTO ");
        assert(schema_sql(21).take(22) =~= "INSERT OR IGNORE INTO "@);
    }
    assert(step_rerunnable(22)) by {
        reveal_strlit("INSERT OR IGNORE INTO role_permissions (role_id, permission) VALUES ('builtin-everyone', 'read_messages')");
        reveal_strlit("INSERT OR IGNORE INTO ");
        assert(schema_sql(22).take(22) =~= "INSERT OR IGNORE INTO "@);
    }
    assert(step_rerunnable(23)) by {
        reveal_strlit("INSERT OR IGNORE INTO role_permissions (role_id, permission) VALUES ('builtin-owner', 'admin')");
        reveal_strlit("INSERT OR IGNORE INTO ");
        assert(schema_sql(23).take(22) =~= "INSERT OR IGNORE INTO "@);
    }
    assert(step_rerunnable(24)) by {
        reveal_strlit("CREATE TABLE IF NOT EXISTS bans ( target_public_key TEXT PRIMARY KEY REFERENCES users(public_key), banned_by TEXT NOT NULL, reason TEXT, created_at INTEGER NOT NULL )");
        reveal_strlit("CREATE TABLE IF NOT EXISTS ");
        assert(schema_sql(24).take(27) =~= "CREATE TABLE IF NOT EXISTS "@);
    }
    assert(step_rerunnable(25)) by {
        reveal_strlit("CREATE TABLE IF NOT EXISTS mutes ( target_public_key TEXT PRIMARY KEY REFERENCES users(public_key), muted_by TEXT NOT NULL, reason TEXT, expires_at INTEGER, created_at INTEGER NOT NULL )");
        reveal_strlit("CREATE TABLE IF NOT EXISTS ");
        assert(schema_sql(25).take(27) =~= "CREATE TABLE IF NOT EXISTS "@);
    }
    assert(step_rerunnable(26)) by {
        reveal_strlit("CREATE TABLE IF NOT EXISTS invites ( code TEXT PRIMARY KEY, created_by TEXT NOT NULL, max_uses INTEGER, uses INTEGER NOT NULL DEFAULT 0, expires_at INTEGER, created_at INTEGER NOT NULL )");
        reveal_strlit("CREATE TABLE IF NOT EXISTS ");
        assert(schema_sql(26).take(27) =~= "CREATE TABLE IF NOT EXISTS "@);
    }
    assert(step_rerunnable(27)) by {
        reveal_strlit("CREATE TABLE IF NOT EXISTS hub_settings ( key TEXT PRIMARY KEY, value TEXT NOT NULL )");
        reveal_strlit("CREATE TABLE IF NOT EXISTS ");
        assert(schema_sql(27).take(27) =~= "CREATE TABLE IF NOT EXISTS "@);
    }
    assert(step_rerunnable(28)) by {
        reveal_strlit("INSERT OR IGNORE INTO hub_settings (key, value) VALUES ('invite_only', 'false')");
        reveal_strlit("INSERT OR IGNORE INTO ");
        assert(schema_sql(28).take(22) =~= "INSERT OR IGNORE INTO "@);
    }
    assert(step_rerunnable(29)) by {
        reveal_strlit("INSERT OR IGNORE INTO hub_settings (key, value) VALUES ('min_security_level', '0')");
        reveal_strlit("INSERT OR IGNORE INTO ");
        assert(schema_sql(29).take(22) =~= "INSERT OR IGNORE INTO "@);
    }
    assert(step_rerunnable(30)) by {
        reveal_strlit("INSERT OR IGNORE INTO hub_settings (key, value) VALUES ('require_approval', 'false')");
        reveal_strlit("INSERT OR IGNORE INTO ");
        assert(schema_sql(30).take(22) =~= "INSERT OR IGNORE INTO "@);
    }
    assert(step_rerunnable(31)) by {
        reveal_strlit("ALTER TABLE users ADD COLUMN approval_status TEXT NOT NULL DEFAULT 'approved'");
        reveal_strlit("ALTER TABLE ");
        assert(schema_sql(31).take(12) =~= "ALTER TABLE "@);
    }
    assert(step_rerunnable(32)) by {
        reveal_strlit("ALTER TABLE users ADD COLUMN avatar TEXT");
        reveal_strlit("ALTER TABLE ");
        assert(schema_sql(32).take(12) =~= "ALTER TABLE "@);
    }
    assert(step_rerunnable(33)) by {
        reveal_strlit("CREATE TABLE IF NOT EXISTS hub_games ( id TEXT PRIMARY KEY, name TEXT NOT NULL, description TEXT, version TEXT NOT NULL, entry_url TEXT NOT NULL, thumbnail_url TEXT, author TEXT, min_players INTEGER NOT NULL DEFAULT 1, max_players INTEGER NOT NULL DEFAULT 1, installed_by TEXT NOT NULL REFERENCES users(public_key), installed_at INTEGER NOT NULL, manifest_url TEXT NOT NULL )");
        reveal_strlit("CREATE TABLE IF NOT EXISTS ");
        assert(schema_sql(33).take(27) =~= "CREATE TABLE IF NOT EXISTS "@);
    }
    assert(step_rerunnable(34)) by {
        reveal_strlit("CREATE TABLE IF NOT EXISTS alliances ( id TEXT PRIMARY KEY, name TEXT NOT NULL, created_by TEXT NOT NULL, created_at INTEGER NOT NULL )");
        reveal_strlit("CREATE TABLE IF NOT EXISTS ");
        assert(schema_sql(34).take(27) =~= "CREATE TABLE IF NOT EXISTS "@);
    }
    assert(step_rerunnable(35)) by {
        reveal_strlit("CREATE TABLE IF NOT EXISTS alliance_members ( alliance_id TEXT NOT NULL REFERENCES alliances(id), hub_public_key TEXT NOT NULL, hub_name TEXT NOT NULL, hub_url TEXT NOT NULL, joined_at INTEGER NOT NULL, PRIMARY KEY (alliance_id, hub_public_key) )");
        reveal_strlit("CREATE TABLE IF NOT EXISTS ");
        assert(schema_sql(35).take(27) =~= "CREATE TABLE IF NOT EXISTS "@);
    }
    assert(step_rerunnable(36)) by {
        reveal_strlit("CREATE TABLE IF NOT EXISTS alliance_shared_channels ( alliance_id TEXT NOT NULL REFERENCES alliances(id), channel_id TEXT NOT NULL REFERENCES channels(id), shared_at INTEGER NOT NULL, PRIMARY KEY (alliance_id, channel_id) )");
        reveal_strlit("CREATE TABLE IF NOT EXISTS ");
        assert(schema_sql(36).take(27) =~= "CREATE TABLE IF NOT EXISTS "@);
    }
    assert(step_rerunnable(37)) by {
        reveal_strlit("CREATE TABLE IF NOT EXISTS channel_bans ( channel_id TEXT NOT NULL REFERENCES channels(id), target_public_key TEXT NOT NULL REFERENCES users(public_key), banned_by TEXT NOT NULL, reason TEXT, created_at INTEGER NOT NULL, PRIMARY KEY (channel_id, target_public_key) )");
        reveal_strlit("CREATE TABLE IF NOT EXISTS ");
        assert(schema_sql(37).take(27) =~= "CREATE TABLE IF NOT EXISTS "@);
    }
    assert(step_rerunnable(38)) by {
        reveal_strlit("CREATE TABLE IF NOT EXISTS voice_mutes ( target_public_key TEXT PRIMARY KEY REFERENCES users(public_key), muted_by TEXT NOT NULL, reason TEXT, created_at INTEGER NOT NULL )");
        reveal_strlit("CREATE TABLE IF NOT EXISTS ");
        assert(schema_sql(38).take(27) =~= "CREATE TABLE IF NOT EXISTS "@);
    }
    assert(step_rerunnable(39)) by {
        reveal_strlit("CREATE TABLE IF NOT EXISTS channel_settings ( channel_id TEXT PRIMARY KEY REFERENCES channels(id), min_talk_power INTEGER NOT NULL DEFAULT 0 )");
        reveal_strlit("CREATE TABLE IF NOT EXISTS ");
        assert(schema_sql(39).take(27) =~= "CREATE TABLE IF NOT EXISTS "@);
    }
    assert(step_rerunnable(40)) by {
        reveal_strlit("CREATE TABLE IF NOT EXISTS conversations ( id TEXT PRIMARY KEY, conv_type TEXT NOT NULL DEFAULT 'dm', created_at INTEGER NOT NULL )");
        reveal_strlit("CREATE TABLE IF NOT EXISTS ");
        assert(schema_sql(40).take(27) =~= "CREATE TABLE IF NOT EXISTS "@);
    }
    assert(step_rerunnable(41)) by {
        reveal_strlit("CREATE TABLE IF NOT EXISTS conversation_members ( conversation_id TEXT NOT NULL REFERENCES conversations(id), public_key TEXT NOT NULL REFERENCES users(public_key), joined_at INTEGER NOT NULL, PRIMARY KEY (conversation_id, public_key) )");
        reveal_strlit("CREATE TABLE IF NOT EXISTS ");
        assert(schema_sql(41).take(27) =~= "CREATE TABLE IF NOT EXISTS "@);
    }
    assert(step_rerunnable(42)) by {
        reveal_strlit("CREATE TABLE IF NOT EXISTS friends ( user_a TEXT NOT NULL REFERENCES users(public_key), user_b TEXT NOT NULL REFERENCES users(public_key), status TEXT NOT NULL DEFAULT 'pending', created_at INTEGER NOT NULL, PRIMARY KEY (user_a, user_b) )");
        reveal_strlit("CREATE TABLE IF NOT EXISTS ");
        assert(schema_sql(42).take(27) =~= "CREATE TABLE IF NOT EXISTS "@);
    }
    assert(step_rerunnable(43)) by {
        reveal_strlit("CREATE TABLE IF NOT EXISTS dm_messages ( id TEXT PRIMARY KEY, conversation_id TEXT NOT NULL, sender TEXT NOT NULL, content TEXT NOT NULL, signature TEXT, created_at INTEGER NOT NULL )");
        reveal_strlit("CREATE TABLE IF NOT EXISTS ");
        assert(schema_sql(43).take(27) =~= "CREATE TABLE IF NOT EXISTS "@);
    }
    assert(step_rerunnable(44)) by {
        reveal_strlit("ALTER TABLE conversation_members ADD COLUMN hub_url TEXT");
        reveal_strlit("ALTER TABLE ");
        assert(schema_sql(44).take(12) =~= "ALTER TABLE "@);
    }
    assert(step_rerunnable(45)) by {
        reveal_strlit("CREATE TABLE IF NOT EXISTS dm_outbox ( message_id TEXT NOT NULL REFERENCES dm_messages(id), recipient_hub_url TEXT NOT NULL, attempts INTEGER NOT NULL DEFAULT 0, next_attempt_at INTEGER NOT NULL, last_error TEXT, bounced_at INTEGER, PRIMARY KEY (message_id, recipient_hub_url) )");
        reveal_strlit("CREATE TABLE IF NOT EXISTS ");
        assert(schema_sql(45).take(27) =~= "CREATE TABLE IF NOT EXISTS "@);
    }
    assert forall|i: int| 0 <= i < SCHEMA_STEP_COUNT implies step_rerunnable(i) by {
        if i == 0 {
            assert(step_rerunnable(0));
        } else if i == 1 {
            assert(step_rerunnable(1));
        } else if i == 2 {
            assert(step_rerunnable(2));
        } else if i == 3 {
            assert(step_rerunnable(3));
        } else if i == 4 {
            assert(step_rerunnable(4));
        } else if i == 5 {
            assert(step_rerunnable(5));
        } else if i == 6 {
            assert(step_rerunnable(6));
        } else if i == 7 {
            assert(step_rerunnable(7));
        } else if i == 8 {
            assert(step_rerunnable(8));
        } else if i == 9 {
            assert(step_rerunnable(9));
        } else if i == 10 {
            assert(step_rerunnable(10));
        } else if i == 11 {
            assert(step_rerunnable(11));
        } else if i == 12 {
            assert(step_rerunnable(12));
        } else if i == 13 {
            assert(step_rerunnable(13));
        } else if i == 14 {
            assert(step_rerunnable(14));
        } else if i == 15 {
            assert(step_rerunnable(15));
        } else if i == 16 {
            assert(step_rerunnable(16));
        } else if i == 17 {
            assert(step_rerunnable(17));
        } else if i == 18 {
            assert(step_rerunnable(18));
        } else if i == 19 {
            assert(step_rerunnable(19));
        } else if i == 20 {
            assert(step_rerunnable(20));
        } else if i == 21 {
            assert(step_rerunnable(21));
        } else if i == 22 {
            assert(step_rerunnable(22));
        } else if i == 23 {
            assert(step_rerunnable(23));
        } else if i == 24 {
            assert(step_rerunnable(24));
        } else if i == 25 {
            assert(step_rerunnable(25));
        } else if i == 26 {
            assert(step_rerunnable(26));
        } else if i == 27 {
            assert(step_rerunnable(27));
        } else if i == 28 {
            assert(step_rerunnable(28));
        } else if i == 29 {
            assert(step_rerunnable(29));
        } else if i == 30 {
            assert(step_rerunnable(30));
        } else if i == 31 {
            assert(step_rerunnable(31));
        } else if i == 32 {
            assert(step_rerunnable(32));
        } else if i == 33 {
            assert(step_rerunnable(33));
        } else if i == 34 {
            assert(step_rerunnable(34));
        } else if i == 35 {
            assert(step_rerunnable(35));
        } else if i == 36 {
            assert(step_rerunnable(36));
        } else if i == 37 {
            assert(step_rerunnable(37));
        } else if i == 38 {
            assert(step_rerunnable(38));
        } else if i == 39 {
            assert(step_rerunnable(39));
        } else if i == 40 {
            assert(step_rerunnable(40));
        } else if i == 41 {
            assert(step_rerunnable(41));
        } else if i == 42 {
            assert(step_rerunnable(42));
        } else if i == 43 {
            assert(step_rerunnable(43));
        } else if i == 44 {
            assert(step_rerunnable(44));
        } else if i == 45 {
            assert(step_rerunnable(45));
        }
    }
}

/// What the setup does after a step.
#[derive(Clone, Copy, Debug, PartialEq, Eq, Structural)]
pub enum StepOutcome {
    /// Go on with the next step.
    Continue,
    /// Stop and report the step's error.
    Abort,
}

/// The setup stops at a failed required step and passes over a failed
/// optional one.
pub fn after_step(required: bool, succeeded: bool) -> (res: StepOutcome)
    ensures
        res == if required && !succeeded { StepOutcome::Abort } else { StepOutcome::Continue },
{
    if required && !succeeded {
        StepOutcome::Abort
    } else {
        StepOutcome::Continue
    }
}

} // verus!

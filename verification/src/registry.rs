//! The immutable, ordered catalog of migration definitions.

use vstd::prelude::*;

use crate::statements::statements_of;

verus! {

/// One versioned, named, immutable unit of schema change. `version` defines
/// the apply order; `up_sql` is the body: one or more statements separated by
/// the delimiter character `;`. Once shipped, a body must never be edited —
/// the checksum persisted at apply time guards against silent edits.
#[derive(Debug)]
pub struct Migration {
    pub version: i32,
    pub name: String,
    pub up_sql: String,
}

/// The ghost image of a migration.
#[verifier::ext_equal]
pub struct MigModel {
    pub version: int,
    pub name: Seq<char>,
    pub body: Seq<char>,
}

impl View for Migration {
    type V = MigModel;

    open spec fn view(&self) -> MigModel {
        MigModel { version: self.version as int, name: self.name@, body: self.up_sql@ }
    }
}

impl Clone for Migration {
    fn clone(&self) -> (r: Self)
        ensures
            r@ == self@,
    {
        Migration {
            version: self.version,
            name: self.name.clone(),
            up_sql: self.up_sql.clone(),
        }
    }
}

/// The ghost images of a catalog of migrations.
pub open spec fn mig_views(migs: Seq<Migration>) -> Seq<MigModel> {
    migs.map_values(|m: Migration| m@)
}

/// A registry is well formed when its versions are positive and strictly
/// ascending (hence free of duplicates).
pub open spec fn registry_well_formed(migs: Seq<MigModel>) -> bool {
    &&& forall|i: int| 0 <= i < migs.len() ==> (#[trigger] migs[i]).version >= 1
    &&& forall|i: int, j: int| 0 <= i < j < migs.len() ==> migs[i].version < migs[j].version
}

/// The body text of the first migration, exactly as shipped. Written as a
/// short head followed by the rest, so that proofs about the text need only
/// reveal the head.
pub open spec fn v1_body() -> Seq<char> {
    "
                --"@ + " 创建用户表
                CREATE TABLE IF NOT EXISTS users (
                    id BIGINT GENERATED ALWAYS AS IDENTITY PRIMARY KEY,
                    username TEXT NOT NULL UNIQUE,
                    email TEXT NOT NULL UNIQUE,
                    password_hash TEXT NOT NULL,
                    role TEXT NOT NULL,
                    status TEXT NOT NULL,
                    profile_name TEXT,
                    avatar_url TEXT,
                    last_login TIMESTAMPTZ,
                    created_at TIMESTAMPTZ NOT NULL,
                    updated_at TIMESTAMPTZ NOT NULL
                );

                -- 创建班级表
                CREATE TABLE IF NOT EXISTS classes (
                    id BIGINT GENERATED ALWAYS AS IDENTITY PRIMARY KEY,
                    teacher_id BIGINT,
                    class_name TEXT NOT NULL UNIQUE,
                    description TEXT,
                    invite_code TEXT NOT NULL UNIQUE,
                    created_at TIMESTAMPTZ NOT NULL,
                    updated_at TIMESTAMPTZ NOT NULL,
                    FOREIGN KEY (teacher_id) REFERENCES users(id) ON DELETE SET NULL
                );

                -- 创建班级学生关联表
                CREATE TABLE IF NOT EXISTS class_users (
                    id BIGINT GENERATED ALWAYS AS IDENTITY PRIMARY KEY,
                    class_id BIGINT NOT NULL,
                    user_id BIGINT NOT NULL,
                    joined_at TIMESTAMPTZ NOT NULL,
                    FOREIGN KEY (class_id) REFERENCES classes(id) ON DELETE CASCADE,
                    FOREIGN KEY (user_id) REFERENCES users(id) ON DELETE CASCADE
                );

                -- 创建作业表
                CREATE TABLE IF NOT EXISTS assignments (
                    id BIGINT GENERATED ALWAYS AS IDENTITY PRIMARY KEY,
                    user_id BIGINT NOT NULL,
                    class_id BIGINT NOT NULL,
                    title TEXT NOT NULL,
                    description TEXT,
                    due_date INTEGER,
                    created_at TIMESTAMPTZ NOT NULL,
                    updated_at TIMESTAMPTZ NOT NULL,
                    FOREIGN KEY (user_id) REFERENCES users(id) ON DELETE CASCADE,
                    FOREIGN KEY (class_id) REFERENCES classes(id) ON DELETE CASCADE
                );

                -- 创建提交表
                CREATE TABLE IF NOT EXISTS submissions (
                    id BIGINT GENERATED ALWAYS AS IDENTITY PRIMARY KEY,
                    assignment_id BIGINT NOT NULL,
                    creator_id BIGINT NOT NULL,
                    content TEXT NOT NULL,
                    submitted_at INTEGER NOT NULL,
                    FOREIGN KEY (assignment_id) REFERENCES assignments(id) ON DELETE CASCADE,
                    FOREIGN KEY (creator_id) REFERENCES users(id) ON DELETE CASCADE
                );

                -- 创建文件表
                CREATE TABLE IF NOT EXISTS files (
                    submission_token TEXT PRIMARY KEY,
                    file_name TEXT NOT NULL,
                    file_size INTEGER NOT NULL,
                    file_type TEXT NOT NULL,
                    uploaded_at TIMESTAMPTZ NOT NULL,
                    user_id BIGINT,
                    FOREIGN KEY (user_id) REFERENCES users(id) ON DELETE SET NULL
                );

                -- 只有在 admin 不存在时插入 (可选)
                INSERT INTO users (username, email, password_hash, role, status, profile_name, avatar_url, last_login, created_at, updated_at)
                    SELECT
                      'admin',
                      'admin@example.com',
                      '$argon2id$v=19$m=65536,t=3,p=4$3pcWjxCi/qihfYIXNadQ0g$uITChD8gDEHSt6eREb/enzd7jmjfOF8KCg+zDBQvMUs',
                      'admin',
                      'active',
                      'Administrator',
                      NULL,
                      NULL,
                      TO_TIMESTAMP(1704067200),
                      TO_TIMESTAMP(1704067200)
                    WHERE NOT EXISTS (
                      SELECT 1 FROM users WHERE username = 'admin'
                    );


                -- 索引
                CREATE INDEX IF NOT EXISTS idx_users_username ON users(username);
                CREATE INDEX IF NOT EXISTS idx_users_email ON users(email);
                CREATE INDEX IF NOT EXISTS idx_users_role ON users(role);
                CREATE INDEX IF NOT EXISTS idx_users_status ON users(status);
                CREATE INDEX IF NOT EXISTS idx_users_last_login ON users(last_login);

                CREATE INDEX IF NOT EXISTS idx_classes_class_name ON classes(class_name);
                CREATE INDEX IF NOT EXISTS idx_classes_teacher_id ON classes(teacher_id);
                CREATE INDEX IF NOT EXISTS idx_classes_invite_code ON classes(invite_code);
            "@
}

/// The compiled-in catalog of all known migrations, ascending by version.
/// Extending the schema means appending an entry with the next version;
/// existing entries are never mutated, and each call returns the same
/// catalog: every field of every entry is pinned below.
pub fn get_all_migrations() -> (r: Vec<Migration>)
    ensures
        registry_well_formed(mig_views(r@)),
        r@.len() == 1,
        r@[0]@.version == 1,
        r@[0]@.name == "create_table_with_indexes"@,
        r@[0]@.body == v1_body(),
        statements_of(r@[0]@.body).len() >= 1,
{
    let head: String = "
                --".to_owned();
    let up_sql = head.concat(" 创建用户表
                CREATE TABLE IF NOT EXISTS users (
                    id BIGINT GENERATED ALWAYS AS IDENTITY PRIMARY KEY,
                    username TEXT NOT NULL UNIQUE,
                    email TEXT NOT NULL UNIQUE,
                    password_hash TEXT NOT NULL,
                    role TEXT NOT NULL,
                    status TEXT NOT NULL,
                    profile_name TEXT,
                    avatar_url TEXT,
                    last_login TIMESTAMPTZ,
                    created_at TIMESTAMPTZ NOT NULL,
                    updated_at TIMESTAMPTZ NOT NULL
                );

                -- 创建班级表
                CREATE TABLE IF NOT EXISTS classes (
                    id BIGINT GENERATED ALWAYS AS IDENTITY PRIMARY KEY,
                    teacher_id BIGINT,
                    class_name TEXT NOT NULL UNIQUE,
                    description TEXT,
                    invite_code TEXT NOT NULL UNIQUE,
                    created_at TIMESTAMPTZ NOT NULL,
                    updated_at TIMESTAMPTZ NOT NULL,
                    FOREIGN KEY (teacher_id) REFERENCES users(id) ON DELETE SET NULL
                );

                -- 创建班级学生关联表
                CREATE TABLE IF NOT EXISTS class_users (
                    id BIGINT GENERATED ALWAYS AS IDENTITY PRIMARY KEY,
                    class_id BIGINT NOT NULL,
                    user_id BIGINT NOT NULL,
                    joined_at TIMESTAMPTZ NOT NULL,
                    FOREIGN KEY (class_id) REFERENCES classes(id) ON DELETE CASCADE,
                    FOREIGN KEY (user_id) REFERENCES users(id) ON DELETE CASCADE
                );

                -- 创建作业表
                CREATE TABLE IF NOT EXISTS assignments (
                    id BIGINT GENERATED ALWAYS AS IDENTITY PRIMARY KEY,
                    user_id BIGINT NOT NULL,
                    class_id BIGINT NOT NULL,
                    title TEXT NOT NULL,
                    description TEXT,
                    due_date INTEGER,
                    created_at TIMESTAMPTZ NOT NULL,
                    updated_at TIMESTAMPTZ NOT NULL,
                    FOREIGN KEY (user_id) REFERENCES users(id) ON DELETE CASCADE,
                    FOREIGN KEY (class_id) REFERENCES classes(id) ON DELETE CASCADE
                );

                -- 创建提交表
                CREATE TABLE IF NOT EXISTS submissions (
                    id BIGINT GENERATED ALWAYS AS IDENTITY PRIMARY KEY,
                    assignment_id BIGINT NOT NULL,
                    creator_id BIGINT NOT NULL,
                    content TEXT NOT NULL,
                    submitted_at INTEGER NOT NULL,
                    FOREIGN KEY (assignment_id) REFERENCES assignments(id) ON DELETE CASCADE,
                    FOREIGN KEY (creator_id) REFERENCES users(id) ON DELETE CASCADE
                );

                -- 创建文件表
                CREATE TABLE IF NOT EXISTS files (
                    submission_token TEXT PRIMARY KEY,
                    file_name TEXT NOT NULL,
                    file_size INTEGER NOT NULL,
                    file_type TEXT NOT NULL,
                    uploaded_at TIMESTAMPTZ NOT NULL,
                    user_id BIGINT,
                    FOREIGN KEY (user_id) REFERENCES users(id) ON DELETE SET NULL
                );

                -- 只有在 admin 不存在时插入 (可选)
                INSERT INTO users (username, email, password_hash, role, status, profile_name, avatar_url, last_login, created_at, updated_at)
                    SELECT
                      'admin',
                      'admin@example.com',
                      '$argon2id$v=19$m=65536,t=3,p=4$3pcWjxCi/qihfYIXNadQ0g$uITChD8gDEHSt6eREb/enzd7jmjfOF8KCg+zDBQvMUs',
                      'admin',
                      'active',
                      'Administrator',
                      NULL,
                      NULL,
                      TO_TIMESTAMP(1704067200),
                      TO_TIMESTAMP(1704067200)
                    WHERE NOT EXISTS (
                      SELECT 1 FROM users WHERE username = 'admin'
                    );


                -- 索引
                CREATE INDEX IF NOT EXISTS idx_users_username ON users(username);
                CREATE INDEX IF NOT EXISTS idx_users_email ON users(email);
                CREATE INDEX IF NOT EXISTS idx_users_role ON users(role);
                CREATE INDEX IF NOT EXISTS idx_users_status ON users(status);
                CREATE INDEX IF NOT EXISTS idx_users_last_login ON users(last_login);

                CREATE INDEX IF NOT EXISTS idx_classes_class_name ON classes(class_name);
                CREATE INDEX IF NOT EXISTS idx_classes_teacher_id ON classes(teacher_id);
                CREATE INDEX IF NOT EXISTS idx_classes_invite_code ON classes(invite_code);
            ");
    proof {
        reveal_strlit("
                --");
        assert(up_sql@ == v1_body());
        assert(v1_body()[17] == '-');
        assert(!crate::statements::is_trim_space('-'));
        crate::statements::lemma_statement_exists(v1_body(), 17);
    }
    let m = Migration {
        version: 1,
        name: "create_table_with_indexes".to_owned(),
        up_sql,
    };
    let mut r: Vec<Migration> = Vec::new();
    r.push(m);
    r
}

} // verus!

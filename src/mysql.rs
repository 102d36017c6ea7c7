use vstd::prelude::*;
use vstd::string::*;
use vstd::utf8::is_char_boundary;

verus! {

/// The longest identifier MySQL accepts, in bytes.
pub const MYSQL_IDENTIFIER_LIMIT: usize = 64;

/// A name that a new database can have: not empty, and under 64 bytes.
pub open spec fn is_valid_database_name(db_name: &str) -> bool {
    0 < db_name.spec_bytes().len() < 64
}

/// Whether `db_name` can name a new database.
pub fn valid_database_name(db_name: &str) -> (r: bool)
    ensures
        r == is_valid_database_name(db_name),
{
    let n = db_name.as_bytes().len();
    0 < n && n < MYSQL_IDENTIFIER_LIMIT
}

/// `identifier` cut to under 64 bytes: its first 63 bytes when it is longer.
/// A cut must fall on a character boundary.
pub fn mysql_safe_identifier(identifier: &str) -> (r: &str)
    requires
        identifier.spec_bytes().len() >= 64 ==> is_char_boundary(identifier.spec_bytes(), 63),
    ensures
        identifier.spec_bytes().len() < 64 ==> r.spec_bytes() == identifier.spec_bytes(),
        identifier.spec_bytes().len() >= 64 ==> r.spec_bytes() =~= identifier.spec_bytes().subrange(
            0,
            63,
        ),
{
    if identifier.as_bytes().len() < MYSQL_IDENTIFIER_LIMIT {
        identifier
    } else {
        let parts = identifier.split_at(MYSQL_IDENTIFIER_LIMIT - 1);
        parts.0
    }
}

/// What a MySQL-family server was found to be.
#[derive(Clone, Copy, PartialEq, Eq, Structural, Debug, Hash)]
pub struct MysqlTags {
    pub mysql: bool,
    pub lower_cases_table_names: bool,
    pub mysql56: bool,
    pub mysql57: bool,
    pub mysql8: bool,
    pub mariadb: bool,
    pub vitess: bool,
}

/// `needle` occurs in `hay` at some position.
pub open spec fn occurs_in(needle: Seq<char>, hay: Seq<char>) -> bool {
    exists|i: int| 0 <= i && i + needle.len() <= hay.len() && #[trigger] hay.subrange(i, i + needle.len()) == needle
}

/// Whether `needle` occurs in `hay`.
pub fn contains(hay: &str, needle: &str) -> (r: bool)
    ensures
        r == occurs_in(needle@, hay@),
{
    let n = hay.unicode_len();
    let m = needle.unicode_len();
    if m > n {
        return false;
    }
    if m == 0 {
        assert(hay@.subrange(0, 0 + needle@.len() as int) =~= needle@);
        return true;
    }
    let mut i: usize = 0;
    while i <= n - m
        invariant
            n == hay@.len(),
            m == needle@.len(),
            1 <= m <= n,
            i <= n - m + 1,
            forall|k: int| 0 <= k < i ==> #[trigger] hay@.subrange(k, k + m) != needle@,
        decreases n - m + 1 - i,
    {
        let mut j: usize = 0;
        let mut same = true;
        while j < m
            invariant
                n == hay@.len(),
                m == needle@.len(),
                i + m <= n,
                j <= m,
                same ==> forall|t: int| 0 <= t < j ==> hay@[i + t] == needle@[t],
                !same ==> hay@.subrange(i as int, i + m) != needle@,
            decreases m - j,
        {
            if same && hay.get_char(i + j) != needle.get_char(j) {
                same = false;
                assert(hay@.subrange(i as int, i + m)[j as int] != needle@[j as int]);
            }
            j = j + 1;
        }
        if same {
            assert(hay@.subrange(i as int, i + m) =~= needle@);
            return true;
        }
        i = i + 1;
    }
    proof {
        assert forall|k: int| 0 <= k && k + needle@.len() <= hay@.len() implies #[trigger] hay@.subrange(
            k,
            k + needle@.len(),
        ) != needle@ by {
            assert(k < i);
        }
    }
    false
}

/// The tags of a server, from what it reported: the setting
/// `lower_case_table_names`, its version text, and the flag that marks a
/// Vitess proxy (present when set, "0" meaning off). Without a version text,
/// only the setting counts.
pub open spec fn tags_of(
    lower_case_table_names: Option<i64>,
    version: Option<Seq<char>>,
    is_vitess: Option<Seq<char>>,
) -> MysqlTags {
    let lower = lower_case_table_names == Some(1i64);
    match version {
        None => MysqlTags {
            mysql: true,
            lower_cases_table_names: lower,
            mysql56: false,
            mysql57: false,
            mysql8: false,
            mariadb: false,
            vitess: false,
        },
        Some(v) => MysqlTags {
            mysql: true,
            lower_cases_table_names: lower,
            mysql56: occurs_in("5.6"@, v),
            mysql57: occurs_in("5.7"@, v),
            mysql8: occurs_in("8."@, v),
            mariadb: occurs_in("MariaDB"@, v),
            vitess: match is_vitess {
                None => false,
                Some(f) => f != "0"@,
            },
        },
    }
}

/// Whether `s` is exactly the text `0`.
fn is_zero_flag(s: &str) -> (r: bool)
    ensures
        r == (s@ == "0"@),
{
    proof {
        reveal_strlit("0");
    }
    if s.unicode_len() == 1 {
        let c = s.get_char(0);
        if c == '0' {
            assert(s@ =~= "0"@);
        }
        c == '0'
    } else {
        false
    }
}

/// Infers the tags of a MySQL-family server from its reported metadata.
pub fn mysql_tags(lower_case_table_names: Option<i64>, version: Option<&str>, is_vitess: Option<
    &str,
>) -> (r: MysqlTags)
    ensures
        r == tags_of(
            lower_case_table_names,
            match version {
                Some(v) => Some(v@),
                None => None,
            },
            match is_vitess {
                Some(f) => Some(f@),
                None => None,
            },
        ),
{
    proof {
        reveal_strlit("5.6");
        reveal_strlit("5.7");
        reveal_strlit("8.");
        reveal_strlit("MariaDB");
    }
    let lower = match lower_case_table_names {
        Some(n) => n == 1,
        None => false,
    };
    let mut tags = MysqlTags {
        mysql: true,
        lower_cases_table_names: lower,
        mysql56: false,
        mysql57: false,
        mysql8: false,
        mariadb: false,
        vitess: false,
    };
    match version {
        None => tags,
        Some(v) => {
            tags.mysql56 = contains(v, "5.6");
            tags.mysql57 = contains(v, "5.7");
            tags.mysql8 = contains(v, "8.");
            tags.mariadb = contains(v, "MariaDB");
            tags.vitess = match is_vitess {
                None => false,
                Some(f) => !is_zero_flag(f),
            };
            tags
        },
    }
}

/// The statement that drops the database `db_name` if it exists.
pub open spec fn drop_database_text(db_name: Seq<char>) -> Seq<char> {
    "DROP DATABASE IF EXISTS `"@ + db_name + "`;"@
}

/// The statement that creates the database `db_name`.
pub open spec fn create_database_text(db_name: Seq<char>) -> Seq<char> {
    "CREATE DATABASE `"@ + db_name + "`;"@
}

/// The statement that drops the database `db_name` if it exists. It is sent
/// apart from the one that creates it: some servers refuse both in one batch.
pub fn drop_database_sql(db_name: &str) -> (r: String)
    ensures
        r@ == drop_database_text(db_name@),
{
    proof {
        reveal_strlit("DROP DATABASE IF EXISTS `");
        reveal_strlit("`;");
    }
    let mut out = String::from_str("DROP DATABASE IF EXISTS `");
    out.append(db_name);
    out.append("`;");
    out
}

/// The statement that creates the database `db_name`.
pub fn create_database_sql(db_name: &str) -> (r: String)
    ensures
        r@ == create_database_text(db_name@),
{
    proof {
        reveal_strlit("CREATE DATABASE `");
        reveal_strlit("`;");
    }
    let mut out = String::from_str("CREATE DATABASE `");
    out.append(db_name);
    out.append("`;");
    out
}

} // verus!

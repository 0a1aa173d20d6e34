//! Configuration resolution: turns line-oriented `key = value` credential
//! text into a connection descriptor.
//!
//! Blank lines and section-header lines (those beginning with `[`) are
//! ignored; every other line is split on its first `=`, with key and value
//! trimmed of surrounding whitespace; a line without `=` is silently
//! skipped. When a key occurs on several lines, the last occurrence wins.
//! Missing keys take defaults: `host` becomes `localhost`, the rest empty.

use vstd::prelude::*;

use crate::text::{find_char, spec_find, spec_trim, str_eq, trim_str};

verus! {

/// Resolved connection parameters, immutable once constructed.
pub struct ConnectionDescriptor {
    pub host: String,
    pub user: String,
    pub password: String,
    pub database: String,
}

/// Failure of configuration resolution. `NotFound` means the file is
/// absent; `Unreadable` means input failed while iterating its lines.
/// Both are raised by the caller that performs the reading; the parsing
/// itself never fails.
#[derive(Clone, Copy, PartialEq, Eq, Structural, Debug)]
pub enum ConfigError {
    NotFound,
    Unreadable,
}

/// The `(key, value)` entry a configuration line contributes, if any:
/// section headers, blank lines and lines without `=` contribute none.
pub open spec fn spec_parse_line(line: Seq<char>) -> Option<(Seq<char>, Seq<char>)> {
    if line.len() > 0 && line[0] == '[' {
        None
    } else if spec_trim(line).len() == 0 {
        None
    } else {
        match spec_find(line, '=') {
            None => None,
            Some(i) => Some((spec_trim(line.take(i)), spec_trim(line.skip(i + 1)))),
        }
    }
}

/// The value of the last line that binds `key`, if any line does.
pub open spec fn spec_lookup(lines: Seq<Seq<char>>, key: Seq<char>) -> Option<Seq<char>>
    decreases lines.len(),
{
    if lines.len() == 0 {
        None
    } else {
        match spec_parse_line(lines.last()) {
            Some(kv) => if kv.0 == key {
                Some(kv.1)
            } else {
                spec_lookup(lines.drop_last(), key)
            },
            None => spec_lookup(lines.drop_last(), key),
        }
    }
}

/// The resolved value of `key`: the last binding, or `default` if none.
pub open spec fn spec_field(lines: Seq<Seq<char>>, key: Seq<char>, default: Seq<char>) -> Seq<
    char,
> {
    match spec_lookup(lines, key) {
        Some(v) => v,
        None => default,
    }
}

/// The last occurrence of a key wins: appending a line that binds `key`
/// makes its value the resolved one, and appending any other line leaves
/// the resolved value unchanged.
pub proof fn lemma_last_binding_wins(lines: Seq<Seq<char>>, line: Seq<char>, key: Seq<char>)
    ensures
        spec_lookup(lines.push(line), key) == (match spec_parse_line(line) {
            Some(kv) => if kv.0 == key {
                Some(kv.1)
            } else {
                spec_lookup(lines, key)
            },
            None => spec_lookup(lines, key),
        }),
{
    assert(lines.push(line).drop_last() =~= lines);
    assert(lines.push(line).last() == line);
}

/// The entry a configuration line contributes, if any.
pub fn parse_line(line: &str) -> (r: Option<(String, String)>)
    ensures
        match r {
            Some(kv) => spec_parse_line(line@) == Some((kv.0@, kv.1@)),
            None => spec_parse_line(line@) is None,
        },
{
    let len: usize = line.unicode_len();
    if len > 0 && line.get_char(0) == '[' {
        return None;
    }
    let trimmed = trim_str(line);
    if trimmed.as_str().unicode_len() == 0 {
        return None;
    }
    match find_char(line, '=') {
        None => None,
        Some(i) => {
            proof {
                crate::text::lemma_find_characterization(line@, '=');
            }
            let key = trim_str(line.substring_char(0, i));
            let value = trim_str(line.substring_char(i + 1, len));
            proof {
                assert(line@.subrange(0, i as int) =~= line@.take(i as int));
                assert(line@.subrange(i + 1, len as int) =~= line@.skip(i + 1));
            }
            Some((key, value))
        },
    }
}

/// Resolves a connection descriptor from the lines of a credential file.
/// Each field equals the value bound by the last line that binds its key,
/// with defaults applied for keys no line binds: `host` defaults to
/// `localhost`, the other fields to the empty string.
pub fn resolve_config(lines: &Vec<String>) -> (r: ConnectionDescriptor)
    ensures
        r.host@ == spec_field(lines.deep_view(), "host"@, "localhost"@),
        r.user@ == spec_field(lines.deep_view(), "user"@, Seq::<char>::empty()),
        r.password@ == spec_field(lines.deep_view(), "password"@, Seq::<char>::empty()),
        r.database@ == spec_field(lines.deep_view(), "dbname"@, Seq::<char>::empty()),
{
    let ghost lv: Seq<Seq<char>> = lines.deep_view();
    let mut host: Option<String> = None;
    let mut user: Option<String> = None;
    let mut password: Option<String> = None;
    let mut database: Option<String> = None;
    let mut i: usize = 0;
    while i < lines.len()
        invariant
            i <= lines.len(),
            lv == lines.deep_view(),
            lv.len() == lines.len(),
            forall|j: int| 0 <= j < lv.len() ==> lv[j] == lines@[j]@,
            match host {
                Some(ref s) => spec_lookup(lv.take(i as int), "host"@) == Some(s@),
                None => spec_lookup(lv.take(i as int), "host"@) is None,
            },
            match user {
                Some(ref s) => spec_lookup(lv.take(i as int), "user"@) == Some(s@),
                None => spec_lookup(lv.take(i as int), "user"@) is None,
            },
            match password {
                Some(ref s) => spec_lookup(lv.take(i as int), "password"@) == Some(s@),
                None => spec_lookup(lv.take(i as int), "password"@) is None,
            },
            match database {
                Some(ref s) => spec_lookup(lv.take(i as int), "dbname"@) == Some(s@),
                None => spec_lookup(lv.take(i as int), "dbname"@) is None,
            },
        decreases lines.len() - i,
    {
        proof {
            reveal_strlit("host");
            reveal_strlit("user");
            reveal_strlit("password");
            reveal_strlit("dbname");
            assert("host"@.len() == 4 && "user"@.len() == 4 && "password"@.len() == 8
                && "dbname"@.len() == 6);
            assert("host"@[0] == 'h' && "user"@[0] == 'u');
            assert("host"@ != "user"@ && "host"@ != "password"@ && "host"@ != "dbname"@);
            assert("user"@ != "password"@ && "user"@ != "dbname"@ && "password"@ != "dbname"@);
            assert(lv.take(i + 1).drop_last() =~= lv.take(i as int));
            assert(lv.take(i + 1).last() == lv[i as int]);
        }
        let entry = parse_line(lines[i].as_str());
        match entry {
            Some(kv) => {
                if str_eq(kv.0.as_str(), "host") {
                    host = Some(kv.1);
                } else if str_eq(kv.0.as_str(), "user") {
                    user = Some(kv.1);
                } else if str_eq(kv.0.as_str(), "password") {
                    password = Some(kv.1);
                } else if str_eq(kv.0.as_str(), "dbname") {
                    database = Some(kv.1);
                }
            },
            None => {},
        }
        i = i + 1;
    }
    proof {
        assert(lv.take(lines.len() as int) =~= lv);
    }
    let host_field = match host {
        Some(s) => s,
        None => String::from_str("localhost"),
    };
    let user_field = match user {
        Some(s) => s,
        None => String::new(),
    };
    let password_field = match password {
        Some(s) => s,
        None => String::new(),
    };
    let database_field = match database {
        Some(s) => s,
        None => String::new(),
    };
    ConnectionDescriptor {
        host: host_field,
        user: user_field,
        password: password_field,
        database: database_field,
    }
}

} // verus!

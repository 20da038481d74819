//! The local side's small helpers: where the application keeps its data,
//! how paths are joined under it, and how a signed-in account is upserted
//! into the in-memory account list.  Reading and writing the account file
//! itself is plain file work and stays outside the library.

use vstd::prelude::*;
use crate::ms_auth::User;
use vstd::string::{StrSliceExecFns, StringExecFns};

verus! {

/// Whether `c` is a hexadecimal digit.
pub open spec fn is_hex_char(c: char) -> bool {
    ('0' <= c && c <= '9') || ('a' <= c && c <= 'f') || ('A' <= c && c <= 'F')
}

/// Whether every character of `s` is a hexadecimal digit.
pub open spec fn is_hex_seq(s: Seq<char>) -> bool {
    forall|i: int| 0 <= i < s.len() ==> is_hex_char(#[trigger] s[i])
}

/// Whether `s` holds a parent-directory step: a `..` standing alone
/// between separators, at the start, or at the end.
pub open spec fn has_dotdot_segment(s: Seq<char>) -> bool {
    exists|i: int|
        0 <= i && i + 2 <= s.len() && (i == 0 || s[i - 1] == '/') && #[trigger] s[i] == '.' && s[i
            + 1] == '.' && (i + 2 == s.len() || s[i + 2] == '/')
}

/// Whether `s` is a safe relative path: nonempty, not absolute, and
/// without a parent-directory step, so that joining it under a root can
/// never resolve outside that root.
pub open spec fn clean_rel_path(s: Seq<char>) -> bool {
    s.len() > 0 && s[0] != '/' && !has_dotdot_segment(s)
}

/// Whether the text is all hexadecimal digits.
pub fn is_hex_str(s: &str) -> (r: bool)
    ensures
        r == is_hex_seq(s@),
{
    let n = s.unicode_len();
    let mut i: usize = 0;
    while i < n
        invariant
            n == s@.len(),
            i <= n,
            forall|k: int| 0 <= k < i ==> is_hex_char(#[trigger] s@[k]),
        decreases n - i,
    {
        let c = s.get_char(i);
        let hex = ('0' <= c && c <= '9') || ('a' <= c && c <= 'f') || ('A' <= c && c <= 'F');
        if !hex {
            return false;
        }
        i = i + 1;
    }
    true
}

/// Whether the text is a safe relative path, as `clean_rel_path` says.
pub fn is_clean_rel_path(s: &str) -> (r: bool)
    ensures
        r == clean_rel_path(s@),
{
    let n = s.unicode_len();
    if n == 0 {
        return false;
    }
    if s.get_char(0) == '/' {
        return false;
    }
    if n < 2 {
        return true;
    }
    let mut i: usize = 0;
    while i <= n - 2
        invariant
            n == s@.len(),
            2 <= n,
            i <= n - 1,
            forall|j: int|
                0 <= j < i && j + 2 <= s@.len() ==> !((j == 0 || s@[j - 1] == '/') && #[trigger] s@[j]
                    == '.' && s@[j + 1] == '.' && (j + 2 == s@.len() || s@[j + 2] == '/')),
        decreases n - i,
    {
        let boundary = i == 0 || s.get_char(i - 1) == '/';
        if boundary && s.get_char(i) == '.' && s.get_char(i + 1) == '.' {
            if i + 2 == n || s.get_char(i + 2) == '/' {
                return false;
            }
        }
        i = i + 1;
    }
    true
}

/// What joining a base path and a relative path yields.
pub open spec fn spec_joined(base: Seq<char>, rel: Seq<char>) -> Seq<char> {
    base + "/"@ + rel
}

/// Joins a base path and a relative path with a forward slash.
pub fn join_path(base: &str, rel: &str) -> (r: String)
    ensures
        r@ == spec_joined(base@, rel@),
{
    let mut r = String::new();
    r.append(base);
    r.append("/");
    r.append(rel);
    proof {
        assert(r@ =~= spec_joined(base@, rel@));
    }
    r
}

/// The name of the account file under the data folder.
pub fn user_file_name() -> (r: String)
    ensures
        r@ == "accounts.json"@,
{
    String::from_str("accounts.json")
}

/// Relies on `platform_dirs::AppDirs::new`: the platform's per-user data
/// directory for this application.  The answer depends on the
/// environment; nothing is returned when the platform offers no such
/// directory or its path is not text.
#[verifier::external_body]
fn data_root_dir() -> (r: Option<String>) {
    match platform_dirs::AppDirs::new(Some("vanta"), true) {
        Some(dirs) => match dirs.data_dir.to_str() {
            Some(s) => Some(s.to_owned()),
            None => None,
        },
        None => None,
    }
}

/// The application's data folder, with a relative path joined under it
/// when one is given.  The folder itself comes from the platform;
/// whatever it is, the appended part is joined exactly.
pub fn get_data_folder(append: Option<&str>) -> (r: Option<String>)
    ensures
        match r {
            Some(p) => match append {
                Some(a) => exists|root: Seq<char>| p@ == #[trigger] spec_joined(root, a@),
                None => true,
            },
            None => true,
        },
{
    match data_root_dir() {
        Some(root) => match append {
            Some(a) => {
                let joined = join_path(root.as_str(), a);
                proof {
                    assert(joined@ == spec_joined(root@, a@));
                }
                Some(joined)
            },
            None => Some(root),
        },
        None => None,
    }
}

/// The folder of one instance: `instances/<id>` under the data folder.
pub fn get_instance_folder(instance: &str) -> (r: Option<String>)
    ensures
        match r {
            Some(p) => exists|root: Seq<char>|
                p@ == #[trigger] spec_joined(root, "instances/"@ + instance@),
            None => true,
        },
{
    let mut rel = String::from_str("instances/");
    rel.append(instance);
    get_data_folder(Some(rel.as_str()))
}

/// The first position holding a user of the given name.
pub open spec fn spec_user_slot(users: Seq<User>, name: Seq<char>) -> Option<int>
    decreases users.len(),
{
    if users.len() == 0 {
        None
    } else if users[0].name@ == name {
        Some(0int)
    } else {
        match spec_user_slot(users.skip(1), name) {
            Some(j) => Some(j + 1),
            None => None,
        }
    }
}

/// Inserts or updates an account: the first account with the same name
/// is replaced, and when there is none the account is appended.
pub fn upsert_user(vec: &mut Vec<User>, new_user: User)
    ensures
        match spec_user_slot(old(vec)@, new_user.name@) {
            Some(i) => final(vec)@ == old(vec)@.update(i, new_user),
            None => final(vec)@ == old(vec)@.push(new_user),
        },
{
    let n = vec.len();
    let mut i: usize = 0;
    proof {
        assert(vec@.skip(0) =~= vec@);
    }
    while i < n
        invariant
            n == vec@.len(),
            i <= n,
            vec@ == old(vec)@,
            spec_user_slot(vec@, new_user.name@) == (match spec_user_slot(
                vec@.skip(i as int),
                new_user.name@,
            ) {
                Some(j) => Some(j + i),
                None => None::<int>,
            }),
        decreases n - i,
    {
        if vec[i].name == new_user.name {
            proof {
                assert(vec@.skip(i as int)[0] == vec@[i as int]);
            }
            let ghost before = vec@;
            let _replaced = vec.remove(i);
            vec.insert(i, new_user);
            proof {
                assert(vec@ =~= before.update(i as int, new_user));
            }
            return;
        }
        proof {
            assert(vec@.skip(i as int).skip(1) =~= vec@.skip(i as int + 1));
        }
        i = i + 1;
    }
    vec.push(new_user);
}

} // verus!

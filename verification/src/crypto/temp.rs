//! Decisions for temporary plaintext files: where they go, how they are
//! named, and how they are overwritten before deletion.
use vstd::prelude::*;
use crate::constants::tmpfs_paths;
use crate::util::{push_str_chars, str_chars, string_from_chars};

verus! {

/// The RAM-backed directories tried first for temporary files, in order.
pub fn tmpfs_path_list() -> (r: Vec<&'static str>)
    ensures
        r@.map_values(|p: &'static str| p@) == tmpfs_paths(),
{
    let r = vec!["/dev/shm", "/run/shm"];
    assert(r@.map_values(|p: &'static str| p@) =~= tmpfs_paths());
    r
}

/// The directory for temporary files: the first RAM-backed directory that
/// exists (`available[i]` tells for the `i`-th), else the system's
/// temporary directory.
pub fn choose_temp_dir(available: &Vec<bool>, system_temp: &str) -> (r: String)
    requires
        available.len() == tmpfs_paths().len(),
    ensures
        available@[0] ==> r@ == tmpfs_paths()[0],
        !available@[0] && available@[1] ==> r@ == tmpfs_paths()[1],
        !available@[0] && !available@[1] ==> r@ == system_temp@,
{
    let paths = tmpfs_path_list();
    proof {
        assert(paths@[0]@ == tmpfs_paths()[0]);
        assert(paths@[1]@ == tmpfs_paths()[1]);
    }
    if available[0] {
        String::from_str(paths[0])
    } else if available[1] {
        String::from_str(paths[1])
    } else {
        String::from_str(system_temp)
    }
}

/// The index of the last slash in `p[..end]`, or -1.
pub open spec fn last_slash_before(p: Seq<char>, end: int) -> int
    decreases end,
{
    if end <= 0 {
        -1
    } else if p[end - 1] == '/' {
        end - 1
    } else {
        last_slash_before(p, end - 1)
    }
}

/// The last component of a path, as `Path::file_name` gives it on Unix:
/// trailing slashes and `.` components are ignored; a path ending in `..`,
/// or naming only the root or the current directory, has none.
pub open spec fn file_name_of(p: Seq<char>) -> Option<Seq<char>>
    decreases p.len(),
{
    if p.len() == 0 {
        None
    } else if p.last() == '/' {
        file_name_of(p.drop_last())
    } else {
        let s = last_slash_before(p, p.len() as int);
        let comp = p.subrange(s + 1, p.len() as int);
        if comp == seq!['.'] {
            if s < 0 || s >= p.len() { None } else { file_name_of(p.subrange(0, s)) }
        } else if comp == seq!['.', '.'] {
            None
        } else {
            Some(comp)
        }
    }
}

proof fn lemma_last_slash_bounds(p: Seq<char>, end: int)
    requires
        0 <= end <= p.len(),
    ensures
        -1 <= last_slash_before(p, end) < end,
        last_slash_before(p, end) >= 0 ==> p[last_slash_before(p, end)] == '/',
        forall|k: int| last_slash_before(p, end) < k < end ==> p[k] != '/',
    decreases end,
{
    if end > 0 && p[end - 1] != '/' {
        lemma_last_slash_bounds(p, end - 1);
    }
}

/// The last component of a path (see [`file_name_of`]).
pub fn file_name(path: &str) -> (r: Option<String>)
    ensures
        match r {
            Some(n) => file_name_of(path@) == Some(n@),
            None => file_name_of(path@) is None,
        },
{
    let cs = str_chars(path);
    let mut end: usize = cs.len();
    assert(cs@.subrange(0, end as int) =~= path@);
    loop
        invariant
            cs@ == path@,
            0 <= end <= cs.len(),
            file_name_of(path@) == file_name_of(cs@.subrange(0, end as int)),
        decreases end,
    {
        let ghost cur = cs@.subrange(0, end as int);
        if end == 0 {
            return None;
        }
        if cs[end - 1] == '/' {
            assert(cur.drop_last() =~= cs@.subrange(0, end - 1));
            end = end - 1;
            continue;
        }
        let mut s: usize = end;
        while s > 0 && cs[s - 1] != '/'
            invariant
                cs@ == path@,
                0 <= s <= end,
                end <= cs.len(),
                last_slash_before(cur, end as int) == last_slash_before(cur, s as int),
                cur == cs@.subrange(0, end as int),
            decreases s,
        {
            s = s - 1;
        }
        let ghost sl = last_slash_before(cur, end as int);
        proof {
            lemma_last_slash_bounds(cur, end as int);
            if s > 0 {
                assert(sl == s - 1);
            } else {
                assert(sl == -1);
            }
        }
        let len = end - s;
        if len == 1 && cs[s] == '.' {
            assert(cur.subrange(sl + 1, cur.len() as int) =~= seq!['.']);
            if s == 0 {
                return None;
            }
            assert(cur.subrange(0, sl) =~= cs@.subrange(0, s - 1));
            end = s - 1;
            continue;
        }
        if len == 2 && cs[s] == '.' && cs[s + 1] == '.' {
            assert(cur.subrange(sl + 1, cur.len() as int) =~= seq!['.', '.']);
            return None;
        }
        proof {
            let comp = cur.subrange(sl + 1, cur.len() as int);
            assert(comp.len() == len);
            if comp == seq!['.'] {
                assert(comp[0] == cs@[s as int]);
            }
            if comp == seq!['.', '.'] {
                assert(comp[0] == cs@[s as int]);
                assert(comp[1] == cs@[s + 1]);
            }
        }
        let mut out: Vec<char> = Vec::new();
        let mut k: usize = s;
        while k < end
            invariant
                s <= k <= end,
                end <= cs.len(),
                out@ == cs@.subrange(s as int, k as int),
            decreases end - k,
        {
            out.push(cs[k]);
            k = k + 1;
            assert(out@ =~= cs@.subrange(s as int, k as int));
        }
        assert(out@ =~= cur.subrange(sl + 1, cur.len() as int));
        return Some(string_from_chars(&out));
    }
}

/// Whether a character is a lowercase hexadecimal digit.
pub open spec fn is_lower_hex(c: char) -> bool {
    ('0' <= c && c <= '9') || ('a' <= c && c <= 'f')
}

/// Whether `s` is a version 4 identifier in the hyphenated lowercase form:
/// 36 characters, hyphens at 8, 13, 18 and 23, hexadecimal digits
/// elsewhere, the version digit `4` at 14 and the variant digit (one of
/// `8`, `9`, `a`, `b`) at 19.
pub open spec fn is_uuid_v4_text(s: Seq<char>) -> bool {
    &&& s.len() == 36
    &&& forall|i: int| 0 <= i < 36 ==> if i == 8 || i == 13 || i == 18 || i == 23 {
        #[trigger] s[i] == '-'
    } else {
        is_lower_hex(s[i])
    }
    &&& s[14] == '4'
    &&& (s[19] == '8' || s[19] == '9' || s[19] == 'a' || s[19] == 'b')
}

/// `uuid::Uuid::new_v4()` written out: random bits with the version and
/// variant set, shown in the hyphenated lowercase form. Which identifier
/// comes out is left to chance.
#[verifier::external_body]
fn random_uuid() -> (r: String)
    ensures
        is_uuid_v4_text(r@),
{
    uuid::Uuid::new_v4().to_string()
}

/// The name of the temporary file for an encrypted file named
/// `encrypted_name` (or `temp` if it has none), made unique by `unique`.
pub open spec fn temp_file_name_text(encrypted_name: Option<Seq<char>>, unique: Seq<char>) -> Seq<char> {
    "ponder-"@ + (match encrypted_name {
        Some(n) => n,
        None => "temp"@,
    }) + "-"@ + unique
}

/// The name of the temporary file for the encrypted file at `path`.
pub fn temp_file_name(path: &str, unique: &str) -> (r: String)
    ensures
        r@ == temp_file_name_text(file_name_of(path@), unique@),
{
    let name = file_name(path);
    let mut out: Vec<char> = Vec::new();
    push_str_chars(&mut out, "ponder-");
    match &name {
        Some(n) => push_str_chars(&mut out, n.as_str()),
        None => push_str_chars(&mut out, "temp"),
    }
    push_str_chars(&mut out, "-");
    push_str_chars(&mut out, unique);
    string_from_chars(&out)
}

/// A fresh name for the temporary file of the encrypted file at `path`,
/// made unique by a random version 4 identifier.
pub fn unique_temp_file_name(path: &str) -> (r: String)
    ensures
        exists|u: Seq<char>| is_uuid_v4_text(u) && r@ == temp_file_name_text(file_name_of(path@), u),
{
    let u = random_uuid();
    temp_file_name(path, u.as_str())
}

/// Largest block of zeros written at once when overwriting a file.
pub const OVERWRITE_CHUNK: u64 = 1048576;

/// The sum of a sequence of sizes.
pub open spec fn total(s: Seq<u64>) -> int
    decreases s.len(),
{
    if s.len() == 0 { 0 } else { total(s.drop_last()) + s.last() }
}

/// The sizes of the blocks of zeros that overwrite a file of `file_size`
/// bytes: full blocks of 1 MiB and a last, smaller one.
pub fn overwrite_chunks(file_size: u64) -> (r: Vec<u64>)
    ensures
        total(r@) == file_size,
        forall|i: int| 0 <= i < r.len() ==> 0 < #[trigger] r@[i] <= OVERWRITE_CHUNK,
        forall|i: int| 0 <= i < r.len() - 1 ==> #[trigger] r@[i] == OVERWRITE_CHUNK,
{
    let mut r: Vec<u64> = Vec::new();
    let mut remaining: u64 = file_size;
    while remaining > 0
        invariant
            total(r@) + remaining == file_size,
            forall|i: int| 0 <= i < r.len() ==> 0 < #[trigger] r@[i] <= OVERWRITE_CHUNK,
            forall|i: int| 0 <= i < r.len() ==> #[trigger] r@[i] == OVERWRITE_CHUNK,
        decreases remaining,
    {
        let chunk = if remaining < OVERWRITE_CHUNK { remaining } else { OVERWRITE_CHUNK };
        let ghost before = r@;
        r.push(chunk);
        assert(r@.drop_last() == before);
        remaining = remaining - chunk;
        if remaining > 0 {
            continue;
        }
        assert(forall|i: int| 0 <= i < r.len() - 1 ==> #[trigger] r@[i] == OVERWRITE_CHUNK);
        return r;
    }
    r
}

} // verus!

//! Resolution of the lyrics file path: from the track URI the player
//! reports to a local file path, and from that path to the `.lrc` path
//! next to it.

use vstd::prelude::*;
use vstd::string::*;

use crate::events::Metadata;

verus! {

/// What the `url` crate makes of a track URI: whether it parses as a URL
/// at all, and, if so, the local file path it maps to (`None` when the URL
/// has no such path, or the path is not valid text).  Both are functions
/// of the URI string alone.
pub uninterp spec fn uri_file_path_outcome(s: Seq<char>) -> (bool, Option<Seq<char>>);

/// Relies on `url::Url::parse` and `url::Url::to_file_path`: both compute
/// from the URI string alone (for the platform this crate is built for),
/// so their combined outcome carries the name `uri_file_path_outcome`.
#[verifier::external_body]
fn uri_to_file_path(uri: &str) -> (r: (bool, Option<String>))
    ensures
        r.0 == uri_file_path_outcome(uri@).0,
        match (r.1, uri_file_path_outcome(uri@).1) {
            (Some(p), Some(q)) => p@ == q,
            (None, None) => true,
            _ => false,
        },
{
    match url::Url::parse(uri) {
        Ok(u) => (
            true,
            u.to_file_path().ok().and_then(|p| p.into_os_string().into_string().ok()),
        ),
        Err(_) => (false, None),
    }
}

/// Resolves the track URI the player reports to a local file path, the
/// way the bus listener needs it: a string that parses as a URL must map
/// to a local file path, and anything else is taken as a plain path.
pub fn file_path_from_uri(uri: &str) -> (r: Result<String, String>)
    ensures
        ({
            let (is_url, path) = uri_file_path_outcome(uri@);
            &&& (r matches Ok(p) ==> (is_url && path == Some(p@)) || (!is_url && p@ == uri@))
            &&& (r is Err <==> is_url && path is None)
        }),
{
    let (is_url, path) = uri_to_file_path(uri);
    if is_url {
        match path {
            Some(p) => Ok(p),
            None => Err(String::from_str("invalid format of url metadata")),
        }
    } else {
        Ok(String::from_str(uri))
    }
}

/// The tail of the player's metadata parse: no URI means no metadata (the
/// player sends such an update when a playlist runs out), and a URI
/// resolves to the track's file path.
pub fn metadata_from_uri(file_path_uri: Option<&str>) -> (r: Result<Option<Metadata>, String>)
    ensures
        file_path_uri is None ==> r == Ok::<Option<Metadata>, String>(None),
        file_path_uri matches Some(uri) ==> {
            let (is_url, path) = uri_file_path_outcome(uri@);
            &&& (r matches Ok(m) ==> m matches Some(md) && ((is_url && path == Some(
                md.file_path@,
            )) || (!is_url && md.file_path@ == uri@)))
            &&& (r is Err <==> is_url && path is None)
        },
{
    match file_path_uri {
        None => Ok(None),
        Some(uri) => match file_path_from_uri(uri) {
            Ok(p) => Ok(Some(Metadata { file_path: p })),
            Err(e) => Err(e),
        },
    }
}

/// Index right after the last occurrence of `c` in `s`; `0` if there is
/// none.
pub open spec fn after_last(s: Seq<char>, c: char) -> int
    decreases s.len(),
{
    if s.len() == 0 {
        0
    } else if s.last() == c {
        s.len() as int
    } else {
        after_last(s.drop_last(), c)
    }
}

/// Index right after the last occurrence of `c` in `s[lo..len)`, as an
/// absolute index; `lo` if there is none.
fn rfind_after(s: &str, lo: usize, len: usize, c: char) -> (r: usize)
    requires
        lo <= len,
        len == s@.len(),
    ensures
        lo <= r <= len,
        r - lo == after_last(s@.subrange(lo as int, len as int), c),
{
    let mut i: usize = len;
    proof {
        assert(s@.subrange(lo as int, len as int) == s@.subrange(lo as int, i as int));
    }
    while i > lo
        invariant
            lo <= i <= len,
            len == s@.len(),
            after_last(s@.subrange(lo as int, len as int), c) == after_last(
                s@.subrange(lo as int, i as int),
                c,
            ),
        decreases i,
    {
        let ghost cur = s@.subrange(lo as int, i as int);
        proof {
            assert(cur.last() == s@[i - 1]);
            assert(cur.drop_last() =~= s@.subrange(lo as int, i - 1));
        }
        if s.get_char(i - 1) == c {
            proof {
                assert(after_last(cur, c) == i - lo);
            }
            return i;
        }
        i -= 1;
    }
    proof {
        assert(s@.subrange(lo as int, lo as int) =~= Seq::<char>::empty());
    }
    lo
}

/// The suffix the lyrics file carries in place of the track's extension.
pub open spec fn lrc_ext() -> Seq<char> {
    seq!['.', 'l', 'r', 'c']
}

/// The lyrics path next to a track path: the track's extension — the part
/// of the file name after its last dot, a leading dot not counting —
/// replaced by `lrc`, or `.lrc` appended when the file name has no
/// extension.  A path with no file name (empty, or ending in `/`, `/.` or
/// `/..`) stays as it is.
pub open spec fn lrc_path_of(p: Seq<char>) -> Seq<char> {
    let fs = after_last(p, '/');
    let name = p.subrange(fs, p.len() as int);
    if name.len() == 0 || name == seq!['.'] || name == seq!['.', '.'] {
        p
    } else {
        let ds = after_last(name, '.');
        if ds <= 1 {
            p + lrc_ext()
        } else {
            p.subrange(0, fs + ds) + seq!['l', 'r', 'c']
        }
    }
}

/// The path of the lyrics file that belongs to the track in `metadata`.
pub fn get_lrc_filepath(metadata: &Metadata) -> (r: String)
    ensures
        r@ == lrc_path_of(metadata.file_path@),
{
    let s = metadata.file_path.as_str();
    let len = s.unicode_len();
    let fs = rfind_after(s, 0, len, '/');
    proof {
        assert(s@.subrange(0, len as int) =~= s@);
    }
    let name_len = len - fs;
    let ghost name = s@.subrange(fs as int, len as int);
    let is_dot = name_len == 1 && s.get_char(fs) == '.';
    let is_dot_dot = name_len == 2 && s.get_char(fs) == '.' && s.get_char(fs + 1) == '.';
    if name_len == 0 || is_dot || is_dot_dot {
        proof {
            if is_dot {
                assert(name =~= seq!['.']);
            }
            if is_dot_dot {
                assert(name =~= seq!['.', '.']);
            }
        }
        return String::from_str(s);
    }
    proof {
        if name == seq!['.'] {
            assert(name[0] == s@[fs as int]);
        }
        if name == seq!['.', '.'] {
            assert(name[0] == s@[fs as int]);
            assert(name[1] == s@[fs + 1]);
        }
    }
    let ds_abs = rfind_after(s, fs, len, '.');
    let ds = ds_abs - fs;
    if ds <= 1 {
        let mut r = String::from_str(s);
        r.append(".lrc");
        proof {
            reveal_strlit(".lrc");
            assert(".lrc"@ =~= lrc_ext());
            assert(r@ =~= lrc_path_of(metadata.file_path@));
        }
        r
    } else {
        let stem = s.substring_char(0, ds_abs);
        let mut r = String::from_str(stem);
        r.append("lrc");
        proof {
            reveal_strlit("lrc");
            assert("lrc"@ =~= seq!['l', 'r', 'c']);
            assert(r@ =~= lrc_path_of(metadata.file_path@));
        }
        r
    }
}

} // verus!

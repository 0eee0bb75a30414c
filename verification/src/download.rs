use vstd::prelude::*;
use vstd::string::*;

verus! {

use crate::text::{dec_str, is_digit, lemma_dec_str_digits, lemma_dec_str_injective, push_char, u32_to_string};

/// `url` with trailing `/` characters removed.
pub open spec fn trim_slashes(s: Seq<char>) -> Seq<char>
    decreases s.len(),
{
    if s.len() > 0 && s.last() == '/' {
        trim_slashes(s.drop_last())
    } else {
        s
    }
}

/// The suffix of `s` after its last `/`, or all of `s` if it has none.
pub open spec fn after_last_slash(s: Seq<char>) -> Seq<char>
    decreases s.len(),
{
    if s.len() == 0 {
        s
    } else if s.last() == '/' {
        Seq::empty()
    } else {
        after_last_slash(s.drop_last()).push(s.last())
    }
}

/// The final path segment of a URL, ignoring trailing slashes.
pub open spec fn url_file_name(url: Seq<char>) -> Seq<char> {
    after_last_slash(trim_slashes(url))
}

/// `i` indexes the last `.` of `name`, and it is not the leading character
/// (a name that is all extension, like a hidden file, has no extension).
pub open spec fn is_last_dot(name: Seq<char>, i: int) -> bool {
    &&& 0 < i < name.len()
    &&& name[i] == '.'
    &&& forall|j: int| i < j < name.len() ==> name[j] != '.'
}

/// The extension of a file name: what follows its last dot, provided that
/// dot is not the leading character. A trailing dot yields the empty
/// extension.
pub open spec fn ext_of_name(name: Seq<char>) -> Option<Seq<char>> {
    if exists|i: int| is_last_dot(name, i) {
        Some(name.skip((choose|i: int| is_last_dot(name, i)) + 1))
    } else {
        None
    }
}

/// The extension inferred from a download URL's path suffix, or "unknown"
/// when the URL carries none.
pub open spec fn infer_extension_spec(url: Seq<char>) -> Seq<char> {
    let name = url_file_name(url);
    if name == ".."@ {
        "unknown"@
    } else {
        match ext_of_name(name) {
            Some(e) => e,
            None => "unknown"@,
        }
    }
}

proof fn lemma_last_dot_unique(name: Seq<char>, i: int, j: int)
    requires
        is_last_dot(name, i),
        is_last_dot(name, j),
    ensures
        i == j,
{
    if i < j {
        assert(name[j] != '.');
    }
    if j < i {
        assert(name[i] != '.');
    }
}

/// Derives a file extension from the URL's path suffix, defaulting to
/// "unknown" when the final segment has none.
pub fn infer_extension(url: &str) -> (r: String)
    ensures
        r@ == infer_extension_spec(url@),
{
    let n = url.unicode_len();
    proof {
        assert(url@.take(n as int) =~= url@);
    }
    // Skip trailing slashes.
    let mut end: usize = n;
    while end > 0 && url.get_char(end - 1) == '/'
        invariant
            end <= n,
            n == url@.len(),
            trim_slashes(url@) =~= trim_slashes(url@.take(end as int)),
        decreases end,
    {
        proof {
            assert(url@.take(end as int).last() == url@[end - 1]);
            assert(url@.take(end as int).drop_last() =~= url@.take(end - 1));
        }
        end = end - 1;
    }
    proof {
        if end > 0 {
            assert(url@.take(end as int).last() == url@[end - 1]);
        }
        assert(trim_slashes(url@.take(end as int)) =~= url@.take(end as int));
    }
    // Find the start of the final segment.
    let mut start: usize = end;
    while start > 0 && url.get_char(start - 1) != '/'
        invariant
            start <= end <= n,
            n == url@.len(),
            after_last_slash(url@.take(end as int)) =~= after_last_slash(
                url@.take(start as int),
            ) + url@.subrange(start as int, end as int),
        decreases start,
    {
        proof {
            assert(url@.take(start as int).last() == url@[start - 1]);
            assert(url@.take(start as int).drop_last() =~= url@.take(start - 1));
            assert(after_last_slash(url@.take(start as int)) =~= after_last_slash(
                url@.take(start - 1),
            ).push(url@[start - 1]));
            assert(after_last_slash(url@.take(start - 1)) + url@.subrange(
                start - 1,
                end as int,
            ) =~= after_last_slash(url@.take(start - 1)).push(url@[start - 1]) + url@.subrange(
                start as int,
                end as int,
            ));
        }
        start = start - 1;
    }
    let ghost name = url_file_name(url@);
    proof {
        if start > 0 {
            assert(url@.take(start as int).last() == url@[start - 1]);
        }
        assert(after_last_slash(url@.take(start as int)) =~= Seq::<char>::empty());
        assert(name =~= url@.subrange(start as int, end as int));
    }
    // A ".." segment carries no extension.
    let is_dotdot: bool = if end - start == 2 {
        let a = url.get_char(start);
        let b = url.get_char(start + 1);
        a == '.' && b == '.'
    } else {
        false
    };
    if is_dotdot {
        proof {
            reveal_strlit("..");
            assert(name =~= ".."@);
        }
        return String::from_str("unknown");
    }
    proof {
        reveal_strlit("..");
        if name == ".."@ {
            assert(url@[start as int] == name[0]);
            assert(url@[start as int + 1] == name[1]);
            assert(false);
        }
        assert(name != ".."@);
    }
    // Search for the last dot of the segment, excluding its first character.
    let mut k: usize = end;
    while k > 0 && k - 1 > start
        invariant
            start <= k <= end <= n,
            n == url@.len(),
            name == url_file_name(url@),
            name =~= url@.subrange(start as int, end as int),
            name != ".."@,
            forall|j: int| k <= j < end ==> url@[j] != '.',
        decreases k,
    {
        let c = url.get_char(k - 1);
        if c == '.' {
            proof {
                assert(name[k - 1 - start] == url@[k - 1]);
                assert(is_last_dot(name, k - 1 - start)) by {
                    assert(forall|j: int| k - 1 - start < j < name.len() ==> name[j]
                        == url@[j + start] && url@[j + start] != '.');
                }
                let c0 = choose|i: int| is_last_dot(name, i);
                lemma_last_dot_unique(name, c0, k - 1 - start);
                assert(ext_of_name(name) == Some(name.skip(k as int - start as int)));
            }
            let ext = String::from_str(url.substring_char(k, end));
            proof {
                assert(url@.subrange(k as int, end as int) =~= name.skip(k as int - start as int));
            }
            return ext;
        }
        k = k - 1;
    }
    proof {
        assert(ext_of_name(name) is None) by {
            if exists|i: int| is_last_dot(name, i) {
                let i = choose|i: int| is_last_dot(name, i);
                assert(name[i] == url@[i + start]);
            }
        }
    }
    String::from_str("unknown")
}

/// The only container format the extractor understands.
pub open spec fn supported_container(ext: Seq<char>) -> bool {
    ext == "zip"@
}

/// Whether `ext` names a supported compressed-container format.
pub fn is_supported_container(ext: &String) -> (r: bool)
    ensures
        r == supported_container(ext@),
{
    let zip = String::from_str("zip");
    ext.eq(&zip)
}

/// The staging file name for one mod: `<mod_id>.<ext>`.
pub open spec fn staging_file_name_spec(mod_id: nat, ext: Seq<char>) -> Seq<char> {
    dec_str(mod_id) + seq!['.'] + ext
}

/// Builds the deterministic staging file name for a mod id and extension.
pub fn staging_file_name(mod_id: u32, ext: &String) -> (r: String)
    ensures
        r@ == staging_file_name_spec(mod_id as nat, ext@),
{
    let mut s = u32_to_string(mod_id);
    push_char(&mut s, '.');
    s.append(ext.as_str());
    proof {
        assert(s@ =~= dec_str(mod_id as nat) + seq!['.'] + ext@);
    }
    s
}

/// Per-mod artifacts never collide: two runs for different mod ids name
/// different scratch directories and different staging files, whatever
/// extensions their URLs carry, so arbitrarily many concurrent runs can
/// share the staging and scratch roots.
pub proof fn lemma_mod_id_scoping(a: nat, b: nat, ext_a: Seq<char>, ext_b: Seq<char>)
    requires
        a != b,
    ensures
        dec_str(a) != dec_str(b),
        staging_file_name_spec(a, ext_a) != staging_file_name_spec(b, ext_b),
{
    lemma_dec_str_digits(a);
    lemma_dec_str_digits(b);
    if dec_str(a) == dec_str(b) {
        lemma_dec_str_injective(a, b);
    }
    if staging_file_name_spec(a, ext_a) == staging_file_name_spec(b, ext_b) {
        let sa = dec_str(a);
        let sb = dec_str(b);
        let s = staging_file_name_spec(a, ext_a);
        assert(s == sa + seq!['.'] + ext_a);
        assert(s == sb + seq!['.'] + ext_b);
        if sa.len() < sb.len() {
            assert(s[sa.len() as int] == '.');
            assert(s[sa.len() as int] == sb[sa.len() as int]);
            assert(is_digit(sb[sa.len() as int]));
            assert(false);
        } else if sb.len() < sa.len() {
            assert(s[sb.len() as int] == '.');
            assert(s[sb.len() as int] == sa[sb.len() as int]);
            assert(is_digit(sa[sb.len() as int]));
            assert(false);
        } else {
            assert(sa =~= sb) by {
                assert forall|i: int| 0 <= i < sa.len() implies sa[i] == sb[i] by {
                    assert(s[i] == sa[i]);
                    assert(s[i] == sb[i]);
                }
            }
            lemma_dec_str_injective(a, b);
            assert(false);
        }
    }
}

} // verus!

use vstd::prelude::*;

verus! {

/// `s` begins with `p`.
pub open spec fn has_prefix(s: Seq<char>, p: Seq<char>) -> bool {
    p.len() <= s.len() && s.subrange(0, p.len() as int) == p
}

/// `s` ends with `p`.
pub open spec fn has_suffix(s: Seq<char>, p: Seq<char>) -> bool {
    p.len() <= s.len() && s.subrange(s.len() - p.len(), s.len() as int) == p
}

/// `otp-{tag}`: the tail shared by every install directory built for `tag`.
pub open spec fn otp_suffix_of(tag: Seq<char>) -> Seq<char> {
    seq!['o', 't', 'p', '-'] + tag
}

/// A directory named `name` holds an install of server `id` for runtime tag `tag`.
pub open spec fn is_install_of(name: Seq<char>, id: Seq<char>, tag: Seq<char>) -> bool {
    has_prefix(name, id) && has_suffix(name, otp_suffix_of(tag))
}

/// `{id}-v{version}-otp-{tag}`: the install directory of one release.
pub open spec fn version_dir_of(id: Seq<char>, version: Seq<char>, tag: Seq<char>) -> Seq<char> {
    id + seq!['-', 'v'] + version + seq!['-'] + otp_suffix_of(tag)
}

/// `{dir}/{file}`.
pub open spec fn path_in(dir: Seq<char>, file: Seq<char>) -> Seq<char> {
    dir + seq!['/'] + file
}

/// The name of a server's executable: its id with each `-` turned into `_`.
pub open spec fn underscored(id: Seq<char>) -> Seq<char> {
    id.map_values(|c: char| if c == '-' { '_' } else { c })
}

/// Whether `s` begins with `p`.
pub fn starts_with(s: &str, p: &str) -> (r: bool)
    ensures
        r == has_prefix(s@, p@),
{
    let n = s.unicode_len();
    let m = p.unicode_len();
    if m > n {
        return false;
    }
    let mut i: usize = 0;
    while i < m
        invariant
            n == s@.len(),
            m == p@.len(),
            m <= n,
            i <= m,
            forall|k: int| 0 <= k < i ==> s@[k] == p@[k],
        decreases m - i,
    {
        if s.get_char(i) != p.get_char(i) {
            assert(s@.subrange(0, m as int)[i as int] != p@[i as int]);
            return false;
        }
        i = i + 1;
    }
    assert(s@.subrange(0, m as int) =~= p@);
    true
}

/// Whether `s` ends with `p`.
pub fn ends_with(s: &str, p: &str) -> (r: bool)
    ensures
        r == has_suffix(s@, p@),
{
    let n = s.unicode_len();
    let m = p.unicode_len();
    if m > n {
        return false;
    }
    let d: usize = n - m;
    let mut i: usize = 0;
    while i < m
        invariant
            n == s@.len(),
            m == p@.len(),
            d == n - m,
            i <= m,
            forall|k: int| 0 <= k < i ==> s@[d + k] == p@[k],
        decreases m - i,
    {
        if s.get_char(d + i) != p.get_char(i) {
            assert(s@.subrange(d as int, n as int)[i as int] != p@[i as int]);
            return false;
        }
        i = i + 1;
    }
    assert(s@.subrange(d as int, n as int) =~= p@);
    true
}

/// Whether `a` and `b` hold the same characters.
pub fn same_text(a: &str, b: &str) -> (r: bool)
    ensures
        r == (a@ == b@),
{
    let r = a.unicode_len() == b.unicode_len() && starts_with(a, b);
    proof {
        if a@.len() == b@.len() {
            assert(a@.subrange(0, b@.len() as int) =~= a@);
        }
    }
    r
}

/// `otp-{tag}`.
pub fn otp_suffix(tag: &str) -> (r: String)
    ensures
        r@ == otp_suffix_of(tag@),
{
    let mut r = String::from_str("otp-");
    proof {
        reveal_strlit("otp-");
    }
    r.append(tag);
    assert(r@ =~= otp_suffix_of(tag@));
    r
}

/// Whether a directory named `name` holds an install of `id` built for `tag`.
pub fn is_install(name: &str, id: &str, tag: &str) -> (r: bool)
    ensures
        r == is_install_of(name@, id@, tag@),
{
    let suffix = otp_suffix(tag);
    starts_with(name, id) && ends_with(name, suffix.as_str())
}

/// The install directory `{id}-v{version}-otp-{tag}` of a release.
pub fn version_dir_name(id: &str, version: &str, tag: &str) -> (r: String)
    ensures
        r@ == version_dir_of(id@, version@, tag@),
{
    let mut r = String::from_str(id);
    r.append("-v");
    r.append(version);
    r.append("-");
    let suffix = otp_suffix(tag);
    r.append(suffix.as_str());
    proof {
        reveal_strlit("-v");
        reveal_strlit("-");
    }
    assert(r@ =~= version_dir_of(id@, version@, tag@));
    r
}

/// The path `{dir}/{file}`.
pub fn join_path(dir: &str, file: &str) -> (r: String)
    ensures
        r@ == path_in(dir@, file@),
{
    let mut r = String::from_str(dir);
    r.append("/");
    r.append(file);
    proof {
        reveal_strlit("/");
    }
    assert(r@ =~= path_in(dir@, file@));
    r
}

/// A server's executable name: `id` with `-` replaced by `_`.
pub fn executable_name(id: &str) -> (r: String)
    ensures
        r@ == underscored(id@),
{
    let n = id.unicode_len();
    let mut r = String::new();
    let mut i: usize = 0;
    while i < n
        invariant
            n == id@.len(),
            i <= n,
            r@ =~= underscored(id@.subrange(0, i as int)),
        decreases n - i,
    {
        let c = id.get_char(i);
        if c == '-' {
            r.append("_");
        } else {
            let one = id.substring_char(i, i + 1);
            assert(one@ =~= seq![c]);
            r.append(one);
        }
        proof {
            reveal_strlit("_");
        }
        assert(id@.subrange(0, i + 1) =~= id@.subrange(0, i as int).push(c));
        i = i + 1;
    }
    assert(id@.subrange(0, n as int) =~= id@);
    r
}

/// A string that ends with `mid`, where `mid` ends with `tail`, ends with `tail`.
pub proof fn lemma_suffix_of_suffix(s: Seq<char>, mid: Seq<char>, tail: Seq<char>)
    requires
        has_suffix(s, mid),
        has_suffix(mid, tail),
    ensures
        has_suffix(s, tail),
{
    let a = s.len() - mid.len();
    let b = mid.len() - tail.len();
    assert forall|k: int| 0 <= k < tail.len() implies s.subrange(s.len() - tail.len(), s.len() as int)[k]
        == tail[k] by {
        assert(s.subrange(a, s.len() as int)[b + k] == mid[b + k]);
        assert(mid.subrange(b, mid.len() as int)[k] == tail[k]);
    }
    assert(s.subrange(s.len() - tail.len(), s.len() as int) =~= tail);
}

} // verus!

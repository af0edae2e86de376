//! The archive command line and the paths an archive moves between.

use vstd::prelude::*;

verus! {

/// The argument is the URL placeholder `{url}`, compared ignoring ASCII case.
pub open spec fn is_url_placeholder(arg: Seq<char>) -> bool {
    &&& arg.len() == 5
    &&& arg[0] == '{'
    &&& (arg[1] == 'u' || arg[1] == 'U')
    &&& (arg[2] == 'r' || arg[2] == 'R')
    &&& (arg[3] == 'l' || arg[3] == 'L')
    &&& arg[4] == '}'
}

/// One argument of the archive command after the placeholder is filled in.
pub open spec fn substituted(arg: Seq<char>, url: Seq<char>) -> Seq<char> {
    if is_url_placeholder(arg) {
        url
    } else {
        arg
    }
}

/// Appending one path component: an absolute component replaces the base,
/// otherwise a single separator stands between the two.
pub open spec fn joined(base: Seq<char>, part: Seq<char>) -> Seq<char> {
    if part.len() > 0 && part[0] == '/' {
        part
    } else if base.len() == 0 || base.last() == '/' {
        base + part
    } else {
        base + seq!['/'] + part
    }
}

/// Where the archive of a website is moved: `<root>/<id>/<date>`.
pub open spec fn destination(root: Seq<char>, id: Seq<char>, date: Seq<char>) -> Seq<char> {
    joined(joined(root, id), date)
}

/// The host part of a URL, where the URL parses and has one.
pub uninterp spec fn url_host(url: Seq<char>) -> Option<Seq<char>>;

/// Tells whether `arg` is the URL placeholder, ignoring ASCII case.
pub fn is_placeholder(arg: &str) -> (r: bool)
    ensures
        r == is_url_placeholder(arg@),
{
    if arg.unicode_len() != 5 {
        return false;
    }
    let c1 = arg.get_char(1);
    let c2 = arg.get_char(2);
    let c3 = arg.get_char(3);
    arg.get_char(0) == '{' && (c1 == 'u' || c1 == 'U') && (c2 == 'r' || c2 == 'R') && (c3 == 'l'
        || c3 == 'L') && arg.get_char(4) == '}'
}

/// The argument list handed to the archive program: each placeholder
/// argument becomes `url`, every other argument passes through unchanged.
pub fn substitute_url(template: &Vec<String>, url: &str) -> (r: Vec<String>)
    ensures
        r@.len() == template@.len(),
        forall|k: int| 0 <= k < r@.len() ==> #[trigger] r@[k]@ == substituted(template@[k]@, url@),
{
    let mut r: Vec<String> = Vec::new();
    let mut k: usize = 0;
    while k < template.len()
        invariant
            k <= template@.len(),
            r@.len() == k,
            forall|j: int| 0 <= j < k ==> #[trigger] r@[j]@ == substituted(template@[j]@, url@),
        decreases template@.len() - k,
    {
        let arg = &template[k];
        if is_placeholder(arg.as_str()) {
            r.push(url.to_owned());
        } else {
            r.push(arg.clone());
        }
        k = k + 1;
    }
    r
}

/// Appends the component `part` to the path `base`.
pub fn join_path(base: &str, part: &str) -> (r: String)
    ensures
        r@ == joined(base@, part@),
{
    let plen = part.unicode_len();
    if plen > 0 && part.get_char(0) == '/' {
        return part.to_owned();
    }
    let blen = base.unicode_len();
    let mut r = base.to_owned();
    if blen == 0 || base.get_char(blen - 1) == '/' {
        r.append(part);
        proof {
            assert(blen > 0 ==> base@.last() == base@[blen - 1]);
        }
    } else {
        proof {
            reveal_strlit("/");
            assert("/"@ =~= seq!['/']);
        }
        r.append("/");
        r.append(part);
    }
    proof {
        assert(r@ =~= joined(base@, part@));
    }
    r
}

/// The directory an archive is moved to: `<root>/<id>/<date>`.
pub fn destination_path(root: &str, id: &str, date: &str) -> (r: String)
    ensures
        r@ == destination(root@, id@, date@),
{
    let site = join_path(root, id);
    join_path(site.as_str(), date)
}

/// Relies on reqwest::Url::parse and Url::host_str: the host of a URL, or
/// none where the text does not parse or names no host.
#[verifier::external_body]
pub(crate) fn host_of(url: &str) -> (r: Option<String>)
    ensures
        match r {
            Some(h) => url_host(url@) == Some(h@),
            None => url_host(url@) is None,
        },
{
    reqwest::Url::parse(url).ok().and_then(|u| u.host_str().map(String::from))
}

/// Relies on chrono::Local::now and its `%Y-%m-%d` formatting: the local
/// date of today, read once when a controller is made.
#[verifier::external_body]
pub(crate) fn local_run_date() -> (r: String) {
    chrono::Local::now().format("%Y-%m-%d").to_string()
}

} // verus!

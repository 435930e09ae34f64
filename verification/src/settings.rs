//! Command-line settings: node lists, `.env` entries, the storage
//! configuration chosen from the environment, default file names and the
//! replay check of a saved verification artifact.

use vstd::prelude::*;
use crate::hex::{nibble_char, spec_hex_encode};
use crate::text::{chars_of, push_char, owned, push_str, strings_view};
use crate::client::{opt_view, UploadMode, ZeroGStorageConfig};
use crate::commitment::StateCommitment;
use crate::types::CommitmentSubmission;

verus! {

// ---------------------------------------------------------------------------
// Character classes and trimming.

/// Whether a character is Unicode white space (`char::is_whitespace`).
pub open spec fn is_whitespace_char(c: char) -> bool {
    let u = c as u32;
    ||| 9 <= u <= 13
    ||| u == 32
    ||| u == 0x85
    ||| u == 0xa0
    ||| u == 0x1680
    ||| 0x2000 <= u <= 0x200a
    ||| u == 0x2028
    ||| u == 0x2029
    ||| u == 0x202f
    ||| u == 0x205f
    ||| u == 0x3000
}

/// A set of characters that trimming removes.
#[derive(Clone, Copy, Debug, PartialEq, Eq, Structural)]
pub enum CharClass {
    /// Unicode white space.
    Whitespace,
    /// One given character.
    Exactly(char),
}

/// Whether a character belongs to a class.
pub open spec fn in_class(k: CharClass, c: char) -> bool {
    match k {
        CharClass::Whitespace => is_whitespace_char(c),
        CharClass::Exactly(x) => c == x,
    }
}

fn class_contains(k: CharClass, c: char) -> (r: bool)
    ensures
        r == in_class(k, c),
{
    match k {
        CharClass::Whitespace => {
            let u = c as u32;
            (9 <= u && u <= 13) || u == 32 || u == 0x85 || u == 0xa0 || u == 0x1680 || (0x2000 <= u && u
                <= 0x200a) || u == 0x2028 || u == 0x2029 || u == 0x202f || u == 0x205f || u == 0x3000
        },
        CharClass::Exactly(x) => c == x,
    }
}

/// `s` without its leading characters of class `k`.
pub open spec fn trim_start_by(s: Seq<char>, k: CharClass) -> Seq<char>
    decreases s.len(),
{
    if s.len() > 0 && in_class(k, s[0]) {
        trim_start_by(s.drop_first(), k)
    } else {
        s
    }
}

/// `s` without its trailing characters of class `k`.
pub open spec fn trim_end_by(s: Seq<char>, k: CharClass) -> Seq<char>
    decreases s.len(),
{
    if s.len() > 0 && in_class(k, s.last()) {
        trim_end_by(s.drop_last(), k)
    } else {
        s
    }
}

/// `s` without leading and trailing characters of class `k`
/// (`str::trim` for white space, `str::trim_matches` for one character).
pub open spec fn trim_by(s: Seq<char>, k: CharClass) -> Seq<char> {
    trim_end_by(trim_start_by(s, k), k)
}

/// `s` without leading and trailing white space (`str::trim`).
pub open spec fn spec_trim(s: Seq<char>) -> Seq<char> {
    trim_by(s, CharClass::Whitespace)
}

/// The bounds, within `[lo, hi)`, of the leading-trimmed part.
fn trim_start_bound(cs: &Vec<char>, lo: usize, hi: usize, k: CharClass) -> (a: usize)
    requires
        lo <= hi <= cs@.len(),
    ensures
        lo <= a <= hi,
        cs@.subrange(a as int, hi as int) == trim_start_by(cs@.subrange(lo as int, hi as int), k),
{
    let mut a = lo;
    while a < hi && class_contains(k, cs[a])
        invariant
            lo <= a <= hi <= cs@.len(),
            trim_start_by(cs@.subrange(lo as int, hi as int), k) == trim_start_by(
                cs@.subrange(a as int, hi as int),
                k,
            ),
        decreases hi - a,
    {
        assert(cs@.subrange(a as int, hi as int).drop_first() =~= cs@.subrange(a as int + 1, hi as int));
        a = a + 1;
    }
    a
}

/// The end, within `[lo, hi)`, of the trailing-trimmed part.
fn trim_end_bound(cs: &Vec<char>, lo: usize, hi: usize, k: CharClass) -> (b: usize)
    requires
        lo <= hi <= cs@.len(),
    ensures
        lo <= b <= hi,
        cs@.subrange(lo as int, b as int) == trim_end_by(cs@.subrange(lo as int, hi as int), k),
{
    let mut b = hi;
    while b > lo && class_contains(k, cs[b - 1])
        invariant
            lo <= b <= hi <= cs@.len(),
            trim_end_by(cs@.subrange(lo as int, hi as int), k) == trim_end_by(cs@.subrange(lo as int, b as int), k),
        decreases b - lo,
    {
        assert(cs@.subrange(lo as int, b as int).drop_last() =~= cs@.subrange(lo as int, b as int - 1));
        b = b - 1;
    }
    b
}

/// The bounds, within `[lo, hi)`, of the trimmed part.
fn trim_bounds(cs: &Vec<char>, lo: usize, hi: usize, k: CharClass) -> (r: (usize, usize))
    requires
        lo <= hi <= cs@.len(),
    ensures
        lo <= r.0 <= r.1 <= hi,
        cs@.subrange(r.0 as int, r.1 as int) == trim_by(cs@.subrange(lo as int, hi as int), k),
{
    let a = trim_start_bound(cs, lo, hi, k);
    let b = trim_end_bound(cs, a, hi, k);
    (a, b)
}

/// A `String` made of `cs[lo..hi]`.
fn string_of_range(cs: &Vec<char>, lo: usize, hi: usize) -> (s: String)
    requires
        lo <= hi <= cs@.len(),
    ensures
        s@ == cs@.subrange(lo as int, hi as int),
{
    let mut s = String::new();
    let mut i = lo;
    while i < hi
        invariant
            lo <= i <= hi <= cs@.len(),
            s@ =~= cs@.subrange(lo as int, i as int),
        decreases hi - i,
    {
        push_char(&mut s, cs[i]);
        i = i + 1;
    }
    s
}

/// A string slice without leading and trailing white space (`str::trim`).
pub fn trim(s: &str) -> (r: String)
    ensures
        r@ == spec_trim(s@),
{
    let cs = chars_of(s);
    let (a, b) = trim_bounds(&cs, 0, cs.len(), CharClass::Whitespace);
    assert(cs@.subrange(0, cs@.len() as int) =~= s@);
    string_of_range(&cs, a, b)
}

/// The address of a stored file on a storage endpoint: the endpoint without
/// trailing `/`, then `/file/`, then the root without leading `/`.
pub open spec fn spec_node_download_url(node: Seq<char>, root: Seq<char>) -> Seq<char> {
    trim_end_by(node, CharClass::Exactly('/')) + "/file/"@ + trim_start_by(root, CharClass::Exactly('/'))
}

/// The address under which a storage node serves the file with a Merkle root.
pub fn node_download_url(node: &str, root: &str) -> (s: String)
    ensures
        s@ == spec_node_download_url(node@, root@),
{
    let ns = chars_of(node);
    let b = trim_end_bound(&ns, 0, ns.len(), CharClass::Exactly('/'));
    let rs = chars_of(root);
    let a = trim_start_bound(&rs, 0, rs.len(), CharClass::Exactly('/'));
    assert(ns@.subrange(0, ns@.len() as int) =~= node@);
    assert(rs@.subrange(0, rs@.len() as int) =~= root@);
    let mut s = string_of_range(&ns, 0, b);
    push_str(&mut s, "/file/");
    let tail = string_of_range(&rs, a, rs.len());
    push_str(&mut s, tail.as_str());
    s
}

/// The address under which an indexer serves the file with a Merkle root:
/// the indexer without trailing `/`, then `/file/`, then the root as given.
pub open spec fn spec_indexer_download_url(indexer: Seq<char>, root: Seq<char>) -> Seq<char> {
    trim_end_by(indexer, CharClass::Exactly('/')) + "/file/"@ + root
}

/// The address under which an indexer serves the file with a Merkle root.
pub fn indexer_download_url(indexer: &str, root: &str) -> (s: String)
    ensures
        s@ == spec_indexer_download_url(indexer@, root@),
{
    let ns = chars_of(indexer);
    let b = trim_end_bound(&ns, 0, ns.len(), CharClass::Exactly('/'));
    assert(ns@.subrange(0, ns@.len() as int) =~= indexer@);
    let mut s = string_of_range(&ns, 0, b);
    push_str(&mut s, "/file/");
    push_str(&mut s, root);
    s
}

// ---------------------------------------------------------------------------
// Splitting.

/// The pieces of `s` between occurrences of `sep` (`str::split`): one more
/// piece than there are separators, empty pieces included.
pub open spec fn spec_split(s: Seq<char>, sep: char) -> Seq<Seq<char>>
    decreases s.len(),
{
    if s.len() == 0 {
        seq![Seq::<char>::empty()]
    } else {
        let pieces = spec_split(s.drop_last(), sep);
        if s.last() == sep {
            pieces.push(Seq::<char>::empty())
        } else {
            pieces.update(pieces.len() - 1, pieces.last().push(s.last()))
        }
    }
}

/// The trimmed pieces that are not empty, in order.
pub open spec fn trimmed_nonempty(pieces: Seq<Seq<char>>) -> Seq<Seq<char>>
    decreases pieces.len(),
{
    if pieces.len() == 0 {
        Seq::empty()
    } else {
        let kept = trimmed_nonempty(pieces.drop_last());
        let t = spec_trim(pieces.last());
        if t.len() > 0 {
            kept.push(t)
        } else {
            kept
        }
    }
}

/// The storage node URLs named by a comma-separated list: each entry
/// trimmed, empty entries dropped.
pub open spec fn spec_node_urls(raw: Seq<char>) -> Seq<Seq<char>> {
    trimmed_nonempty(spec_split(raw, ','))
}

/// Parse a comma-separated list of storage node URLs.
pub fn parse_node_urls(raw: &str) -> (urls: Vec<String>)
    ensures
        crate::text::strings_view(urls@) == spec_node_urls(raw@),
{
    let cs = chars_of(raw);
    let n = cs.len();
    let mut urls: Vec<String> = Vec::new();
    let mut start: usize = 0;
    let mut i: usize = 0;
    let ghost mut done: Seq<Seq<char>> = Seq::empty();
    assert(spec_split(cs@.take(0), ',') =~~= done.push(cs@.subrange(0, 0)));
    while i < n
        invariant
            n == cs@.len(),
            cs@ == raw@,
            start <= i <= n,
            spec_split(cs@.take(i as int), ',') == done.push(cs@.subrange(start as int, i as int)),
            crate::text::strings_view(urls@) == trimmed_nonempty(done),
        decreases n - i,
    {
        let ghost prefix = cs@.take(i as int + 1);
        assert(prefix.drop_last() =~= cs@.take(i as int));
        if cs[i] == ',' {
            let (a, b) = trim_bounds(&cs, start, i, CharClass::Whitespace);
            let ghost piece = cs@.subrange(start as int, i as int);
            assert(done.push(piece).drop_last() =~= done);
            assert(done.push(piece).last() == piece);
            if a < b {
                let url = string_of_range(&cs, a, b);
                let ghost old_urls = urls@;
                urls.push(url);
                assert(crate::text::strings_view(urls@) =~= crate::text::strings_view(old_urls).push(
                    spec_trim(piece),
                ));
            } else {
                assert(crate::text::strings_view(urls@) =~= trimmed_nonempty(done.push(piece)));
            }
            proof {
                done = done.push(piece);
            }
            start = i + 1;
            assert(prefix.last() == cs@[i as int]);
            assert(spec_split(prefix, ',') =~~= done.push(cs@.subrange(start as int, i as int + 1)));
        } else {
            assert(cs@.subrange(start as int, i as int).push(cs@[i as int]) =~= cs@.subrange(
                start as int,
                i as int + 1,
            ));
            assert(prefix.last() == cs@[i as int]);
            assert(spec_split(prefix, ',') =~= done.push(cs@.subrange(start as int, i as int + 1)));
        }
        i = i + 1;
    }
    let (a, b) = trim_bounds(&cs, start, n, CharClass::Whitespace);
    let ghost last = cs@.subrange(start as int, n as int);
    assert(done.push(last).drop_last() =~= done);
    assert(done.push(last).last() == last);
    assert(cs@.take(n as int) =~= raw@);
    if a < b {
        let url = string_of_range(&cs, a, b);
        let ghost old_urls = urls@;
        urls.push(url);
        assert(crate::text::strings_view(urls@) =~= crate::text::strings_view(old_urls).push(spec_trim(last)));
    } else {
        assert(crate::text::strings_view(urls@) =~= trimmed_nonempty(done.push(last)));
    }
    urls
}

// ---------------------------------------------------------------------------
// Environment values.

/// A value that is present and not blank.
pub open spec fn is_set(value: Option<String>) -> bool {
    value matches Some(v) && spec_trim(v@).len() > 0
}

/// Keep a value only when it is not blank (blank values count as unset).
pub fn non_blank(value: Option<String>) -> (r: Option<String>)
    ensures
        is_set(value) ==> opt_view(r) == opt_view(value),
        !is_set(value) ==> r is None,
{
    match value {
        Some(v) => {
            let t = trim(v.as_str());
            if t.as_str().is_empty() {
                None
            } else {
                Some(v)
            }
        },
        None => None,
    }
}

/// The configured indexer URL: the value trimmed, when not blank.
pub fn first_storage_indexer_url(raw: Option<String>) -> (r: Option<String>)
    ensures
        is_set(raw) ==> opt_view(r) == Some(spec_trim(raw->0@)),
        !is_set(raw) ==> r is None,
{
    match raw {
        Some(v) => {
            let t = trim(v.as_str());
            if t.as_str().is_empty() {
                None
            } else {
                Some(t)
            }
        },
        None => None,
    }
}

/// The first storage node URL of a comma-separated list.
pub fn first_storage_node_url(raw: Option<String>) -> (r: Option<String>)
    ensures
        raw is None ==> r is None,
        raw matches Some(v) ==> if spec_node_urls(v@).len() > 0 {
            opt_view(r) == Some(spec_node_urls(v@)[0])
        } else {
            r is None
        },
{
    match raw {
        Some(v) => {
            let urls = parse_node_urls(v.as_str());
            if urls.len() > 0 {
                let first = urls[0].clone();
                assert(strings_view(urls@)[0] == urls@[0]@);
                Some(first)
            } else {
                None
            }
        },
        None => None,
    }
}

/// Whether an optional node list names at least one node.
pub open spec fn has_node_urls(node_url: Option<String>) -> bool {
    node_url matches Some(v) && spec_node_urls(v@).len() > 0
}

/// A node list counts as given exactly when it names at least one node.
pub proof fn lemma_has_node_urls_is_one_node(node_url: Option<String>)
    ensures
        has_node_urls(node_url) <==> (node_url is Some && spec_node_urls(node_url->0@).len() >= 1),
{
}

proof fn lemma_trim_end_empty(t: Seq<char>, k: CharClass)
    requires
        trim_end_by(t, k).len() == 0,
    ensures
        forall|i: int| 0 <= i < t.len() ==> #[trigger] in_class(k, t[i]),
    decreases t.len(),
{
    if t.len() > 0 && in_class(k, t.last()) {
        lemma_trim_end_empty(t.drop_last(), k);
        assert forall|i: int| 0 <= i < t.len() implies #[trigger] in_class(k, t[i]) by {
            if i < t.len() - 1 {
                assert(t.drop_last()[i] == t[i]);
            }
        }
    }
}

proof fn lemma_trim_start_all_in_class(s: Seq<char>, k: CharClass)
    requires
        forall|i: int| 0 <= i < trim_start_by(s, k).len() ==> #[trigger] in_class(k, trim_start_by(s, k)[i]),
    ensures
        forall|i: int| 0 <= i < s.len() ==> #[trigger] in_class(k, s[i]),
    decreases s.len(),
{
    if s.len() > 0 && in_class(k, s[0]) {
        assert(trim_start_by(s, k) == trim_start_by(s.drop_first(), k));
        lemma_trim_start_all_in_class(s.drop_first(), k);
        assert forall|i: int| 0 <= i < s.len() implies #[trigger] in_class(k, s[i]) by {
            if i > 0 {
                assert(s.drop_first()[i - 1] == s[i]);
            }
        }
    } else if s.len() > 0 {
        assert(in_class(k, trim_start_by(s, k)[0]));
    }
}

proof fn lemma_all_in_class_trims_empty(s: Seq<char>, k: CharClass)
    requires
        forall|i: int| 0 <= i < s.len() ==> #[trigger] in_class(k, s[i]),
    ensures
        trim_start_by(s, k).len() == 0,
    decreases s.len(),
{
    if s.len() > 0 {
        assert forall|i: int| 0 <= i < s.drop_first().len() implies #[trigger] in_class(k, s.drop_first()[i]) by {
            assert(s.drop_first()[i] == s[i + 1]);
        }
        lemma_all_in_class_trims_empty(s.drop_first(), k);
    }
}

proof fn lemma_split_pieces_in_class(s: Seq<char>, sep: char, k: CharClass)
    requires
        forall|i: int| 0 <= i < s.len() ==> #[trigger] in_class(k, s[i]),
    ensures
        spec_split(s, sep).len() >= 1,
        forall|j: int, i: int|
            0 <= j < spec_split(s, sep).len() && 0 <= i < spec_split(s, sep)[j].len() ==> #[trigger] in_class(
                k,
                spec_split(s, sep)[j][i],
            ),
    decreases s.len(),
{
    if s.len() > 0 {
        let d = s.drop_last();
        assert forall|i: int| 0 <= i < d.len() implies #[trigger] in_class(k, d[i]) by {
            assert(d[i] == s[i]);
        }
        lemma_split_pieces_in_class(d, sep, k);
        let pieces = spec_split(d, sep);
        assert(in_class(k, s[s.len() - 1]));
        let all = spec_split(s, sep);
        if s.last() == sep {
            assert(all == pieces.push(Seq::<char>::empty()));
        } else {
            assert(all == pieces.update(pieces.len() - 1, pieces.last().push(s.last())));
        }
        assert forall|j: int, i: int| 0 <= j < all.len() && 0 <= i < all[j].len() implies #[trigger] in_class(
            k,
            all[j][i],
        ) by {
            if s.last() == sep {
                if j < pieces.len() {
                    assert(all[j] == pieces[j]);
                }
            } else if j < pieces.len() - 1 {
                assert(all[j] == pieces[j]);
            } else {
                assert(all[j] == pieces.last().push(s.last()));
                if i < pieces.last().len() {
                    assert(all[j][i] == pieces.last()[i]);
                    assert(pieces.last()[i] == pieces[j][i]);
                }
            }
        }
    }
}

proof fn lemma_blank_pieces_dropped(pieces: Seq<Seq<char>>)
    requires
        forall|j: int, i: int|
            0 <= j < pieces.len() && 0 <= i < pieces[j].len() ==> #[trigger] is_whitespace_char(pieces[j][i]),
    ensures
        trimmed_nonempty(pieces).len() == 0,
    decreases pieces.len(),
{
    if pieces.len() > 0 {
        lemma_blank_pieces_dropped(pieces.drop_last());
        let p = pieces.last();
        assert forall|i: int| 0 <= i < p.len() implies #[trigger] in_class(CharClass::Whitespace, p[i]) by {
            assert(is_whitespace_char(pieces[pieces.len() - 1][i]));
        }
        lemma_all_in_class_trims_empty(p, CharClass::Whitespace);
        assert(spec_trim(p) =~= Seq::<char>::empty());
    }
}

/// A node list that names at least one node is not blank.
pub proof fn lemma_node_urls_not_blank(node_url: Option<String>)
    requires
        has_node_urls(node_url),
    ensures
        is_set(node_url),
{
    let v = node_url->0@;
    if spec_trim(v).len() == 0 {
        let t = trim_start_by(v, CharClass::Whitespace);
        lemma_trim_end_empty(t, CharClass::Whitespace);
        lemma_trim_start_all_in_class(v, CharClass::Whitespace);
        lemma_split_pieces_in_class(v, ',', CharClass::Whitespace);
        let pieces = spec_split(v, ',');
        assert forall|j: int, i: int| 0 <= j < pieces.len() && 0 <= i < pieces[j].len() implies #[trigger] is_whitespace_char(
            pieces[j][i],
        ) by {
            assert(in_class(CharClass::Whitespace, pieces[j][i]));
        }
        lemma_blank_pieces_dropped(pieces);
    }
}

/// Storage mode label of a configuration resolved through an indexer.
pub const MODE_LIVE_WITH_INDEXER: &'static str = "live_with_indexer";

/// Storage mode label of a configuration that targets explicit nodes.
pub const MODE_LIVE_WITH_NODES: &'static str = "live_with_nodes";

/// Storage mode label of a dry run.
pub const MODE_DRY_RUN: &'static str = "dry_run";

/// Choose the storage configuration from the environment: live through the
/// indexer when chain URL, key and indexer are all set; otherwise live with
/// explicit nodes when chain URL, key and a non-empty node list are set;
/// otherwise a dry run. Blank values count as unset.
pub fn build_storage_config(
    network: &str,
    chain_rpc_url: Option<String>,
    private_key: Option<String>,
    indexer_url: Option<String>,
    node_url: Option<String>,
) -> (r: (ZeroGStorageConfig, String))
    ensures
        r.0.network_label@ == network@,
        crate::client::has_default_upload_options(r.0),
        is_set(chain_rpc_url) && is_set(private_key) && is_set(indexer_url) ==> {
            &&& r.1@ == MODE_LIVE_WITH_INDEXER@
            &&& r.0.mode == UploadMode::Live
            &&& opt_view(r.0.chain_rpc_url) == opt_view(chain_rpc_url)
            &&& opt_view(r.0.private_key_hex) == opt_view(private_key)
            &&& opt_view(r.0.indexer_url) == opt_view(indexer_url)
            &&& r.0.node_urls@.len() == 0
        },
        is_set(chain_rpc_url) && is_set(private_key) && !is_set(indexer_url) && node_url is Some
            && spec_node_urls(node_url->0@).len() >= 1 ==> {
            &&& r.1@ == MODE_LIVE_WITH_NODES@
            &&& r.0.mode == UploadMode::Live
            &&& opt_view(r.0.chain_rpc_url) == opt_view(chain_rpc_url)
            &&& opt_view(r.0.private_key_hex) == opt_view(private_key)
            &&& r.0.indexer_url is None
            &&& strings_view(r.0.node_urls@) == spec_node_urls(node_url->0@)
        },
        !(is_set(chain_rpc_url) && is_set(private_key) && is_set(indexer_url)) && is_set(chain_rpc_url)
            && is_set(private_key) && has_node_urls(node_url) ==> {
            &&& r.1@ == MODE_LIVE_WITH_NODES@
            &&& r.0.mode == UploadMode::Live
            &&& opt_view(r.0.chain_rpc_url) == opt_view(chain_rpc_url)
            &&& opt_view(r.0.private_key_hex) == opt_view(private_key)
            &&& r.0.indexer_url is None
            &&& strings_view(r.0.node_urls@) == spec_node_urls(node_url->0@)
        },
        !(is_set(chain_rpc_url) && is_set(private_key) && is_set(indexer_url)) && !(is_set(chain_rpc_url)
            && is_set(private_key) && has_node_urls(node_url)) ==> {
            &&& r.1@ == MODE_DRY_RUN@
            &&& r.0.mode == UploadMode::DryRun
            &&& r.0.chain_rpc_url is None
            &&& r.0.private_key_hex is None
            &&& r.0.indexer_url is None
            &&& r.0.node_urls@.len() == 0
        },
{
    proof {
        if has_node_urls(node_url) {
            lemma_node_urls_not_blank(node_url);
        }
    }
    let chain_rpc_url = non_blank(chain_rpc_url);
    let private_key = non_blank(private_key);
    let indexer_url = non_blank(indexer_url);
    let node_url = non_blank(node_url);
    match (&chain_rpc_url, &private_key, &indexer_url) {
        (Some(rpc), Some(key), Some(indexer)) => {
            return (
                ZeroGStorageConfig::live_with_indexer(owned(network), rpc.clone(), key.clone(), indexer.clone()),
                owned(MODE_LIVE_WITH_INDEXER),
            );
        },
        _ => {},
    }
    match (&chain_rpc_url, &private_key, &node_url) {
        (Some(rpc), Some(key), Some(nodes)) => {
            let node_urls = parse_node_urls(nodes.as_str());
            if node_urls.len() > 0 {
                return (
                    ZeroGStorageConfig::live_with_nodes(owned(network), rpc.clone(), key.clone(), node_urls),
                    owned(MODE_LIVE_WITH_NODES),
                );
            }
        },
        _ => {},
    }
    (ZeroGStorageConfig::dry_run(owned(network)), owned(MODE_DRY_RUN))
}

/// The chain URL, signer key and contract address of the EVM verifier, when
/// all three are set; otherwise verification runs against the local mock.
pub fn configured_evm_verifier(
    chain_rpc_url: Option<String>,
    private_key: Option<String>,
    contract_address: Option<String>,
) -> (r: Option<(String, String, String)>)
    ensures
        r is Some <==> is_set(chain_rpc_url) && is_set(private_key) && is_set(contract_address),
        r matches Some((u, k, a)) ==> Some(u@) == opt_view(chain_rpc_url) && Some(k@) == opt_view(private_key)
            && Some(a@) == opt_view(contract_address),
{
    match (non_blank(chain_rpc_url), non_blank(private_key), non_blank(contract_address)) {
        (Some(u), Some(k), Some(a)) => Some((u, k, a)),
        _ => None,
    }
}

// ---------------------------------------------------------------------------
// `.env` entries whose keys start with a digit.

/// Whether `k` is the first position of `c` in `s`.
pub open spec fn is_first_index(s: Seq<char>, c: char, k: int) -> bool {
    0 <= k < s.len() && s[k] == c && forall|j: int| 0 <= j < k ==> s[j] != c
}

proof fn lemma_first_index_unique(s: Seq<char>, c: char, k1: int, k2: int)
    requires
        is_first_index(s, c, k1),
        is_first_index(s, c, k2),
    ensures
        k1 == k2,
{
    if k1 < k2 {
        assert(s[k1] != c);
    } else if k2 < k1 {
        assert(s[k2] != c);
    }
}

/// Whether a character is an ASCII decimal digit.
pub open spec fn is_ascii_digit(c: char) -> bool {
    48 <= c as u32 <= 57
}

/// The prefix that marks an exported variable.
pub const EXPORT_PREFIX: &'static str = "export ";

/// A `.env` line after trimming and removing an `export ` prefix.
pub open spec fn dotfile_assignment(t: Seq<char>) -> Seq<char> {
    if t.len() >= EXPORT_PREFIX@.len() && t.take(EXPORT_PREFIX@.len() as int) == EXPORT_PREFIX@ {
        trim_start_by(t.skip(EXPORT_PREFIX@.len() as int), CharClass::Whitespace)
    } else {
        t
    }
}

/// The value of an assignment: trimmed, then stripped of surrounding double
/// quotes, then of surrounding single quotes.
pub open spec fn dotfile_value(raw: Seq<char>) -> Seq<char> {
    trim_by(trim_by(spec_trim(raw), CharClass::Exactly('"')), CharClass::Exactly('\''))
}

/// The entry a `.env` line sets, when it is a `KEY=VALUE` assignment (after
/// trimming, not a comment, `export ` allowed) whose trimmed key starts with
/// a decimal digit.
pub open spec fn spec_dotfile_entry(line: Seq<char>) -> Option<(Seq<char>, Seq<char>)> {
    let t = spec_trim(line);
    if t.len() == 0 || t[0] == '#' {
        None
    } else {
        let body = dotfile_assignment(t);
        if exists|k: int| is_first_index(body, '=', k) {
            let k = choose|k: int| is_first_index(body, '=', k);
            let key = spec_trim(body.take(k));
            if key.len() > 0 && is_ascii_digit(key[0]) {
                Some((key, dotfile_value(body.skip(k + 1))))
            } else {
                None
            }
        } else {
            None
        }
    }
}

/// A `.env` line that is not a comment and assigns, at its first `=`, to a
/// trimmed key starting with an ASCII digit always sets that key, whatever
/// its value (an empty value included).
pub proof fn lemma_digit_assignment_always_sets(line: Seq<char>, k: int)
    requires
        spec_trim(line).len() > 0,
        spec_trim(line)[0] != '#',
        is_first_index(dotfile_assignment(spec_trim(line)), '=', k),
        spec_trim(dotfile_assignment(spec_trim(line)).take(k)).len() > 0,
        is_ascii_digit(spec_trim(dotfile_assignment(spec_trim(line)).take(k))[0]),
    ensures
        spec_dotfile_entry(line) matches Some(e) && e.0 == spec_trim(dotfile_assignment(spec_trim(line)).take(k)),
{
    let body = dotfile_assignment(spec_trim(line));
    let kk = choose|q: int| is_first_index(body, '=', q);
    lemma_first_index_unique(body, '=', k, kk);
}

/// The entries set by a sequence of lines, in order.
pub open spec fn dotfile_entries_of(lines: Seq<Seq<char>>) -> Seq<(Seq<char>, Seq<char>)>
    decreases lines.len(),
{
    if lines.len() == 0 {
        Seq::empty()
    } else {
        let earlier = dotfile_entries_of(lines.drop_last());
        match spec_dotfile_entry(lines.last()) {
            Some(e) => earlier.push(e),
            None => earlier,
        }
    }
}

/// The digit-keyed entries that a `.env` file sets, line by line.
pub open spec fn spec_dotfile_entries(contents: Seq<char>) -> Seq<(Seq<char>, Seq<char>)> {
    dotfile_entries_of(spec_split(contents, '\n'))
}

/// Every variable that a `.env` file sets has a nonempty name that starts
/// with an ASCII digit: no other variable is touched.
pub proof fn lemma_dotfile_sets_only_digit_keys(contents: Seq<char>)
    ensures
        forall|j: int|
            0 <= j < spec_dotfile_entries(contents).len() ==> {
                let key = (#[trigger] spec_dotfile_entries(contents)[j]).0;
                key.len() > 0 && is_ascii_digit(key[0])
            },
{
    lemma_entries_digit_keys(spec_split(contents, '\n'));
}

proof fn lemma_entries_digit_keys(lines: Seq<Seq<char>>)
    ensures
        forall|j: int|
            0 <= j < dotfile_entries_of(lines).len() ==> {
                let key = (#[trigger] dotfile_entries_of(lines)[j]).0;
                key.len() > 0 && is_ascii_digit(key[0])
            },
    decreases lines.len(),
{
    if lines.len() > 0 {
        lemma_entries_digit_keys(lines.drop_last());
        let earlier = dotfile_entries_of(lines.drop_last());
        let all = dotfile_entries_of(lines);
        if let Some(e) = spec_dotfile_entry(lines.last()) {
            assert(e.0.len() > 0 && is_ascii_digit(e.0[0]));
            assert forall|j: int| 0 <= j < all.len() implies {
                let key = (#[trigger] all[j]).0;
                key.len() > 0 && is_ascii_digit(key[0])
            } by {
                if j < earlier.len() {
                    assert(all[j] == earlier[j]);
                }
            }
        }
    }
}

/// The views of a list of key/value pairs.
pub open spec fn pairs_view(v: Seq<(String, String)>) -> Seq<(Seq<char>, Seq<char>)> {
    v.map_values(|p: (String, String)| (p.0@, p.1@))
}

fn matches_at(cs: &Vec<char>, at: usize, hi: usize, pattern: &Vec<char>) -> (r: bool)
    requires
        at <= hi <= cs@.len(),
    ensures
        r == (at + pattern@.len() <= hi && cs@.subrange(at as int, at + pattern@.len()) == pattern@),
{
    let m = pattern.len();
    if hi - at < m {
        return false;
    }
    let mut j: usize = 0;
    while j < m
        invariant
            m == pattern@.len(),
            at + m <= hi <= cs@.len(),
            j <= m,
            forall|q: int| 0 <= q < j ==> cs@[at + q] == pattern@[q],
        decreases m - j,
    {
        if cs[at + j] != pattern[j] {
            assert(cs@.subrange(at as int, at + m)[j as int] != pattern@[j as int]);
            return false;
        }
        j = j + 1;
    }
    assert(cs@.subrange(at as int, at + m) =~= pattern@);
    true
}

fn find_char_in(cs: &Vec<char>, lo: usize, hi: usize, c: char) -> (r: Option<usize>)
    requires
        lo <= hi <= cs@.len(),
    ensures
        r matches Some(k) ==> lo <= k < hi && is_first_index(cs@.subrange(lo as int, hi as int), c, k - lo),
        r is None ==> !exists|k: int| is_first_index(cs@.subrange(lo as int, hi as int), c, k),
{
    let ghost s = cs@.subrange(lo as int, hi as int);
    let mut i = lo;
    while i < hi
        invariant
            lo <= i <= hi <= cs@.len(),
            s == cs@.subrange(lo as int, hi as int),
            forall|j: int| 0 <= j < i - lo ==> s[j] != c,
        decreases hi - i,
    {
        if cs[i] == c {
            assert(s[i - lo] == c);
            return Some(i);
        }
        i = i + 1;
    }
    assert forall|k: int| !is_first_index(s, c, k) by {
        if 0 <= k < s.len() {
            assert(s[k] != c);
        }
    }
    None
}

#[verifier::spinoff_prover]
fn dotfile_entry(cs: &Vec<char>, lo: usize, hi: usize, export_prefix: &Vec<char>) -> (r: Option<(String, String)>)
    requires
        lo <= hi <= cs@.len(),
        export_prefix@ == EXPORT_PREFIX@,
    ensures
        r matches Some(p) ==> spec_dotfile_entry(cs@.subrange(lo as int, hi as int)) == Some((p.0@, p.1@)),
        r is None ==> spec_dotfile_entry(cs@.subrange(lo as int, hi as int)) is None,
{
    let ghost line = cs@.subrange(lo as int, hi as int);
    let (a, b) = trim_bounds(cs, lo, hi, CharClass::Whitespace);
    let ghost t = cs@.subrange(a as int, b as int);
    if a == b || cs[a] == '#' {
        return None;
    }
    let body_lo = if matches_at(cs, a, b, export_prefix) {
        let m = export_prefix.len();
        assert(t.take(m as int) =~= cs@.subrange(a as int, a + m));
        assert(t.skip(m as int) =~= cs@.subrange(a + m, b as int));
        trim_start_bound(cs, a + m, b, CharClass::Whitespace)
    } else {
        proof {
            if t.len() >= EXPORT_PREFIX@.len() {
                assert(t.take(EXPORT_PREFIX@.len() as int) =~= cs@.subrange(
                    a as int,
                    a + EXPORT_PREFIX@.len(),
                ));
            }
        }
        a
    };
    let ghost body = cs@.subrange(body_lo as int, b as int);
    assert(body == dotfile_assignment(t));
    let k = match find_char_in(cs, body_lo, b, '=') {
        Some(k) => k,
        None => return None,
    };
    proof {
        let kk = choose|q: int| is_first_index(body, '=', q);
        lemma_first_index_unique(body, '=', kk, k - body_lo);
    }
    let (ka, kb) = trim_bounds(cs, body_lo, k, CharClass::Whitespace);
    assert(body.take(k - body_lo) =~= cs@.subrange(body_lo as int, k as int));
    if ka == kb || !(48 <= cs[ka] as u32 && cs[ka] as u32 <= 57) {
        return None;
    }
    let (v1, v2) = trim_bounds(cs, k + 1, b, CharClass::Whitespace);
    assert(body.skip(k - body_lo + 1) =~= cs@.subrange(k + 1, b as int));
    let (v3, v4) = trim_bounds(cs, v1, v2, CharClass::Exactly('"'));
    let (v5, v6) = trim_bounds(cs, v3, v4, CharClass::Exactly('\''));
    let key = string_of_range(cs, ka, kb);
    let value = string_of_range(cs, v5, v6);
    proof {
        let kk = (k - body_lo) as int;
        assert(t == spec_trim(line));
        assert(key@ == spec_trim(body.take(kk)));
        assert(cs@.subrange(v1 as int, v2 as int) == spec_trim(body.skip(kk + 1)));
        assert(value@ == dotfile_value(body.skip(kk + 1)));
        assert(is_first_index(body, '=', kk));
        assert((choose|q: int| is_first_index(body, '=', q)) == kk);
    }
    Some((key, value))
}

/// The entries of a `.env` file whose keys start with a decimal digit, in
/// file order. (Other keys are left to the general `.env` loader.)
pub fn dotfile_digit_entries(contents: &str) -> (r: Vec<(String, String)>)
    ensures
        pairs_view(r@) == spec_dotfile_entries(contents@),
{
    let cs = chars_of(contents);
    let export_prefix = chars_of(EXPORT_PREFIX);
    let n = cs.len();
    let mut entries: Vec<(String, String)> = Vec::new();
    let mut start: usize = 0;
    let mut i: usize = 0;
    let ghost mut done: Seq<Seq<char>> = Seq::empty();
    assert(spec_split(cs@.take(0), '\n') =~~= done.push(cs@.subrange(0, 0)));
    while i < n
        invariant
            n == cs@.len(),
            cs@ == contents@,
            export_prefix@ == EXPORT_PREFIX@,
            start <= i <= n,
            spec_split(cs@.take(i as int), '\n') == done.push(cs@.subrange(start as int, i as int)),
            pairs_view(entries@) == dotfile_entries_of(done),
        decreases n - i,
    {
        let ghost prefix = cs@.take(i as int + 1);
        assert(prefix.drop_last() =~= cs@.take(i as int));
        assert(prefix.last() == cs@[i as int]);
        if cs[i] == '\n' {
            let ghost piece = cs@.subrange(start as int, i as int);
            assert(done.push(piece).drop_last() =~= done);
            assert(done.push(piece).last() == piece);
            match dotfile_entry(&cs, start, i, &export_prefix) {
                Some(e) => {
                    let ghost old_entries = entries@;
                    entries.push(e);
                    assert(pairs_view(entries@) =~= pairs_view(old_entries).push((e.0@, e.1@)));
                },
                None => {},
            }
            proof {
                done = done.push(piece);
            }
            start = i + 1;
            assert(spec_split(prefix, '\n') =~~= done.push(cs@.subrange(start as int, i as int + 1)));
        } else {
            assert(cs@.subrange(start as int, i as int).push(cs@[i as int]) =~= cs@.subrange(
                start as int,
                i as int + 1,
            ));
            assert(spec_split(prefix, '\n') =~= done.push(cs@.subrange(start as int, i as int + 1)));
        }
        i = i + 1;
    }
    let ghost last = cs@.subrange(start as int, n as int);
    assert(done.push(last).drop_last() =~= done);
    assert(done.push(last).last() == last);
    assert(cs@.take(n as int) =~= contents@);
    match dotfile_entry(&cs, start, n, &export_prefix) {
        Some(e) => {
            let ghost old_entries = entries@;
            entries.push(e);
            assert(pairs_view(entries@) =~= pairs_view(old_entries).push((e.0@, e.1@)));
        },
        None => {},
    }
    entries
}

// ---------------------------------------------------------------------------
// Default file names.

/// Suffix of a saved verification artifact.
pub const ARTIFACT_SUFFIX: &'static str = ".pqsp-receipt.json";

/// Suffix of a recovered plaintext file.
pub const DECRYPTED_SUFFIX: &'static str = ".decrypted";

/// Suffix of a downloaded payload file.
pub const DOWNLOAD_SUFFIX: &'static str = ".json";

/// Name used for an upload whose file name is unavailable.
pub const FALLBACK_UPLOAD_NAME: &'static str = "upload";

/// Name used for a payload whose file name is unavailable.
pub const FALLBACK_PAYLOAD_NAME: &'static str = "payload";

fn name_with_suffix(name: Option<&str>, fallback: &str, suffix: &str) -> (r: String)
    ensures
        r@ == (match name {
            Some(n) => n@,
            None => fallback@,
        }) + suffix@,
{
    let mut r = match name {
        Some(n) => owned(n),
        None => owned(fallback),
    };
    push_str(&mut r, suffix);
    r
}

/// File name of the artifact saved next to an uploaded file: the file's
/// name (or `upload`) followed by `.pqsp-receipt.json`.
pub fn artifact_file_name(file_name: Option<&str>) -> (r: String)
    ensures
        r@ == (match file_name {
            Some(n) => n@,
            None => FALLBACK_UPLOAD_NAME@,
        }) + ARTIFACT_SUFFIX@,
{
    name_with_suffix(file_name, FALLBACK_UPLOAD_NAME, ARTIFACT_SUFFIX)
}

/// File name of the plaintext recovered from an encrypted file: the file's
/// name (or `payload`) followed by `.decrypted`.
pub fn decrypted_file_name(file_name: Option<&str>) -> (r: String)
    ensures
        r@ == (match file_name {
            Some(n) => n@,
            None => FALLBACK_PAYLOAD_NAME@,
        }) + DECRYPTED_SUFFIX@,
{
    name_with_suffix(file_name, FALLBACK_PAYLOAD_NAME, DECRYPTED_SUFFIX)
}

/// Whether a character is kept as is in a file name derived from a root.
pub open spec fn is_file_name_char(c: char) -> bool {
    let u = c as u32;
    ||| 48 <= u <= 57
    ||| 65 <= u <= 90
    ||| 97 <= u <= 122
    ||| c == '-'
    ||| c == '_'
}

/// The file name of a downloaded payload: the root without a `0x` prefix,
/// every character other than ASCII letters, digits, `-` and `_` replaced by
/// `_`, followed by `.json`.
pub open spec fn spec_download_file_name(root: Seq<char>) -> Seq<char> {
    let body = if root.len() >= 2 && root[0] == '0' && root[1] == 'x' {
        root.skip(2)
    } else {
        root
    };
    body.map_values(|c: char| if is_file_name_char(c) { c } else { '_' }) + DOWNLOAD_SUFFIX@
}

/// The default download name of a `0x`-prefixed lower-case hex root is the
/// hex digits followed by `.json`.
pub proof fn lemma_download_name_of_hex_root(root: Seq<u8>)
    ensures
        spec_download_file_name(seq!['0', 'x'] + spec_hex_encode(root)) == spec_hex_encode(root) + ".json"@,
{
    let h = spec_hex_encode(root);
    let text = seq!['0', 'x'] + h;
    assert(text.skip(2) =~= h);
    assert forall|j: int| 0 <= j < h.len() implies #[trigger] is_file_name_char(h[j]) by {
        let n = if j % 2 == 0 { (root[j / 2] / 16) as int } else { (root[j / 2] % 16) as int };
        assert(h[j] == nibble_char(n));
    }
    assert(h.map_values(|c: char| if is_file_name_char(c) { c } else { '_' }) =~= h);
}

/// A root made only of ASCII letters, ASCII digits, `-` and `_` (and not
/// starting with `0x`) names the download file that text followed by `.json`.
pub proof fn lemma_download_name_keeps_name_chars(root: Seq<char>)
    requires
        !(root.len() >= 2 && root[0] == '0' && root[1] == 'x'),
        forall|j: int|
            0 <= j < root.len() ==> {
                let u = #[trigger] root[j] as u32;
                (48 <= u <= 57) || (65 <= u <= 90) || (97 <= u <= 122) || root[j] == '-' || root[j] == '_'
            },
    ensures
        spec_download_file_name(root) == root + ".json"@,
{
    assert forall|j: int| 0 <= j < root.len() implies #[trigger] is_file_name_char(root[j]) by {
        let u = root[j] as u32;
        assert((48 <= u <= 57) || (65 <= u <= 90) || (97 <= u <= 122) || root[j] == '-' || root[j] == '_');
    }
    assert(root.map_values(|c: char| if is_file_name_char(c) { c } else { '_' }) =~= root);
}

/// File name of a payload downloaded by Merkle root.
pub fn download_file_name(merkle_root: &str) -> (r: String)
    ensures
        r@ == spec_download_file_name(merkle_root@),
{
    let cs = chars_of(merkle_root);
    let n = cs.len();
    let lo: usize = if n >= 2 && cs[0] == '0' && cs[1] == 'x' {
        2
    } else {
        0
    };
    let ghost body = cs@.subrange(lo as int, n as int);
    let mut r = String::new();
    let mut i = lo;
    while i < n
        invariant
            n == cs@.len(),
            lo <= i <= n,
            body == cs@.subrange(lo as int, n as int),
            r@ =~= body.take(i - lo).map_values(|c: char| if is_file_name_char(c) { c } else { '_' }),
        decreases n - i,
    {
        let c = cs[i];
        let u = c as u32;
        let keep = (48 <= u && u <= 57) || (65 <= u && u <= 90) || (97 <= u && u <= 122) || c == '-' || c == '_';
        if keep {
            push_char(&mut r, c);
        } else {
            push_char(&mut r, '_');
        }
        i = i + 1;
        assert(body.take(i - lo).drop_last() =~= body.take(i - 1 - lo));
    }
    assert(body.take(n - lo) =~= body);
    assert(cs@ == merkle_root@);
    if n >= 2 && cs[0] == '0' && cs[1] == 'x' {
        assert(body =~= merkle_root@.skip(2));
    } else {
        assert(body =~= merkle_root@);
    }
    push_str(&mut r, DOWNLOAD_SUFFIX);
    r
}

// ---------------------------------------------------------------------------
// Replaying a saved artifact.

/// Version of the saved verification artifact format.
pub const ARTIFACT_VERSION: u8 = 1;

/// Why a saved artifact cannot be replayed.
#[derive(Debug, Clone, Copy, PartialEq, Eq, Structural)]
pub enum ArtifactError {
    /// The artifact was written in a format version this tool does not read.
    UnsupportedVersion(u8),
    /// The receipt and the verifier input name different commitments.
    CommitmentMismatch,
}

/// Check a saved artifact before replaying it: the format version must be
/// current, and the upload receipt and the verifier input must name the same
/// state commitment.
pub fn validate_artifact(
    version: u8,
    receipt_commitment: &StateCommitment,
    submission: &CommitmentSubmission,
) -> (r: Result<(), ArtifactError>)
    ensures
        version != ARTIFACT_VERSION ==> r == Err::<(), ArtifactError>(ArtifactError::UnsupportedVersion(version)),
        version == ARTIFACT_VERSION && receipt_commitment@ != submission.verifier_input.proof_statement.state_commitment@
            ==> r == Err::<(), ArtifactError>(ArtifactError::CommitmentMismatch),
        version == ARTIFACT_VERSION && receipt_commitment@ == submission.verifier_input.proof_statement.state_commitment@
            ==> r is Ok,
{
    if version != ARTIFACT_VERSION {
        return Err(ArtifactError::UnsupportedVersion(version));
    }
    let input_commitment = submission.verifier_input.state_commitment();
    if *receipt_commitment != input_commitment {
        return Err(ArtifactError::CommitmentMismatch);
    }
    Ok(())
}

} // verus!

use vstd::prelude::*;
use crate::digits::{digit_char, spec_dec};
use crate::urls::{spec_continue_search_url, spec_search_url};

verus! {

/// Whether no position of `s` holds the character `c`.
pub open spec fn no_char(s: Seq<char>, c: char) -> bool {
    forall|i: int| 0 <= i < s.len() ==> s[i] != c
}

/// Whether a text is free of the characters that are reserved in the
/// query part of a URL: such a text passes into the query verbatim
/// without breaking its syntax.
pub open spec fn no_reserved_query_chars(s: Seq<char>) -> bool {
    no_char(s, '&') && no_char(s, '=') && no_char(s, '?') && no_char(s, '#')
}

/// Index of the first occurrence of `c` in `s`, or `s.len()` when absent.
pub open spec fn find_char(s: Seq<char>, c: char) -> int
    decreases s.len(),
{
    if s.len() == 0 {
        0
    } else if s[0] == c {
        0
    } else {
        1 + find_char(s.drop_first(), c)
    }
}

/// The query part of a URL: everything after the first `?`, empty when
/// the URL has none.
pub open spec fn query_of(url: Seq<char>) -> Seq<char> {
    if find_char(url, '?') < url.len() {
        url.skip(find_char(url, '?') + 1)
    } else {
        Seq::empty()
    }
}

/// The segments of `s` between occurrences of the separator, in order;
/// one more segment than separators, and no segment holds the separator.
pub open spec fn split_on(s: Seq<char>, sep: char) -> Seq<Seq<char>>
    decreases s.len(),
{
    if s.len() == 0 {
        seq![Seq::<char>::empty()]
    } else if s[0] == sep {
        seq![Seq::<char>::empty()] + split_on(s.drop_first(), sep)
    } else {
        let rest = split_on(s.drop_first(), sep);
        seq![seq![s[0]] + rest[0]] + rest.drop_first()
    }
}

/// Whether a query segment assigns a value to `key`, that is, reads
/// `key=` followed by the value.
pub open spec fn is_assignment(seg: Seq<char>, key: Seq<char>) -> bool {
    seg.len() > key.len() && seg.take(key.len() as int + 1) == key.push('=')
}

/// The values the segments assign to `key`, in order.
pub open spec fn values_of(segs: Seq<Seq<char>>, key: Seq<char>) -> Seq<Seq<char>>
    decreases segs.len(),
{
    if segs.len() == 0 {
        Seq::empty()
    } else {
        let rest = values_of(segs.drop_first(), key);
        if is_assignment(segs[0], key) {
            seq![segs[0].skip(key.len() as int + 1)] + rest
        } else {
            rest
        }
    }
}

/// The values that a URL's query assigns to `key`, in order: the query is
/// what follows the first `?`, its parameters are separated by `&`.
pub open spec fn query_values(url: Seq<char>, key: Seq<char>) -> Seq<Seq<char>> {
    values_of(split_on(query_of(url), '&'), key)
}

/// A character absent from two texts is absent from their concatenation.
proof fn lemma_no_char_concat(a: Seq<char>, b: Seq<char>, c: char)
    requires
        no_char(a, c),
        no_char(b, c),
    ensures
        no_char(a + b, c),
{
    assert forall|i: int| 0 <= i < (a + b).len() implies (a + b)[i] != c by {
        if i < a.len() {
            assert((a + b)[i] == a[i]);
        } else {
            assert((a + b)[i] == b[i - a.len()]);
        }
    }
}

/// Searching a concatenation whose first part is free of the character
/// finds it where the second part does.
proof fn lemma_find_char_concat(a: Seq<char>, b: Seq<char>, c: char)
    requires
        no_char(a, c),
    ensures
        find_char(a + b, c) == a.len() + find_char(b, c),
    decreases a.len(),
{
    if a.len() == 0 {
        assert(a + b =~= b);
    } else {
        assert((a + b)[0] == a[0]);
        assert((a + b).drop_first() =~= a.drop_first() + b);
        assert forall|i: int| 0 <= i < a.drop_first().len() implies a.drop_first()[i] != c by {
            assert(a.drop_first()[i] == a[i + 1]);
        }
        lemma_find_char_concat(a.drop_first(), b, c);
    }
}

/// Splitting yields at least one segment.
proof fn lemma_split_len_pos(s: Seq<char>, sep: char)
    ensures
        split_on(s, sep).len() >= 1,
    decreases s.len(),
{
    if s.len() == 0 {
    } else if s[0] == sep {
        lemma_split_len_pos(s.drop_first(), sep);
    } else {
        lemma_split_len_pos(s.drop_first(), sep);
    }
}

/// A text free of the separator splits into itself alone.
proof fn lemma_split_no_sep(s: Seq<char>, sep: char)
    requires
        no_char(s, sep),
    ensures
        split_on(s, sep) == seq![s],
    decreases s.len(),
{
    if s.len() == 0 {
        assert(s =~= Seq::<char>::empty());
        assert(split_on(s, sep) =~= seq![s]);
    } else {
        assert forall|i: int| 0 <= i < s.drop_first().len() implies s.drop_first()[i] != sep by {
            assert(s.drop_first()[i] == s[i + 1]);
        }
        lemma_split_no_sep(s.drop_first(), sep);
        assert(seq![s[0]] + s.drop_first() =~= s);
        assert(split_on(s, sep) =~= seq![s]);
    }
}

/// Splitting at a separator standing between two texts splits each text
/// on its own: the separator never merges segments across it.
proof fn lemma_split_concat(x: Seq<char>, y: Seq<char>, sep: char)
    ensures
        split_on(x + seq![sep] + y, sep) == split_on(x, sep) + split_on(y, sep),
    decreases x.len(),
{
    let s = x + seq![sep] + y;
    if x.len() == 0 {
        assert(s[0] == sep);
        assert(s.drop_first() =~= y);
        assert(split_on(x, sep) =~= seq![Seq::<char>::empty()]);
        assert(split_on(s, sep) =~= split_on(x, sep) + split_on(y, sep));
    } else {
        assert(s[0] == x[0]);
        assert(s.drop_first() =~= x.drop_first() + seq![sep] + y);
        lemma_split_concat(x.drop_first(), y, sep);
        lemma_split_len_pos(x.drop_first(), sep);
        lemma_split_len_pos(y, sep);
        let rx = split_on(x.drop_first(), sep);
        let r = split_on(s.drop_first(), sep);
        if x[0] == sep {
            assert(split_on(s, sep) =~= seq![Seq::<char>::empty()] + r);
            assert(split_on(x, sep) =~= seq![Seq::<char>::empty()] + rx);
            assert(split_on(s, sep) =~= split_on(x, sep) + split_on(y, sep));
        } else {
            assert(r == rx + split_on(y, sep));
            assert(r[0] == rx[0]);
            assert(r.drop_first() =~= rx.drop_first() + split_on(y, sep));
            assert(split_on(s, sep) =~= seq![seq![s[0]] + r[0]] + r.drop_first());
            assert(split_on(x, sep) =~= seq![seq![x[0]] + rx[0]] + rx.drop_first());
            assert(split_on(s, sep) =~= split_on(x, sep) + split_on(y, sep));
        }
    }
}

/// Segments none of which assign to `key` contribute no value.
proof fn lemma_values_none(segs: Seq<Seq<char>>, key: Seq<char>)
    requires
        forall|i: int| 0 <= i < segs.len() ==> !is_assignment(#[trigger] segs[i], key),
    ensures
        values_of(segs, key) == Seq::<Seq<char>>::empty(),
    decreases segs.len(),
{
    if segs.len() > 0 {
        assert(!is_assignment(segs[0], key));
        assert forall|i: int|
            0 <= i < segs.drop_first().len() implies !is_assignment(
            #[trigger] segs.drop_first()[i],
            key,
        ) by {
            assert(segs.drop_first()[i] == segs[i + 1]);
        }
        lemma_values_none(segs.drop_first(), key);
    }
}

/// When exactly the segment at `j` assigns to `key`, the one value is
/// what that segment assigns.
proof fn lemma_values_single(segs: Seq<Seq<char>>, key: Seq<char>, j: int)
    requires
        0 <= j < segs.len(),
        is_assignment(segs[j], key),
        forall|i: int| 0 <= i < segs.len() && i != j ==> !is_assignment(#[trigger] segs[i], key),
    ensures
        values_of(segs, key) == seq![segs[j].skip(key.len() as int + 1)],
    decreases segs.len(),
{
    assert forall|i: int|
        0 <= i < segs.drop_first().len() && i != j - 1 implies !is_assignment(
        #[trigger] segs.drop_first()[i],
        key,
    ) by {
        assert(segs.drop_first()[i] == segs[i + 1]);
    }
    if j == 0 {
        lemma_values_none(segs.drop_first(), key);
        assert(values_of(segs, key) =~= seq![segs[0].skip(key.len() as int + 1)]);
    } else {
        assert(!is_assignment(segs[0], key));
        lemma_values_single(segs.drop_first(), key, j - 1);
        assert(segs.drop_first()[j - 1] == segs[j]);
        assert(values_of(segs, key) =~= seq![segs[j].skip(key.len() as int + 1)]);
    }
}

/// Every character of a decimal representation is a digit.
proof fn lemma_dec_digits(n: nat)
    ensures
        forall|i: int|
            0 <= i < spec_dec(n).len() ==> 48 <= #[trigger] spec_dec(n)[i] as int <= 57,
    decreases n,
{
    if n < 10 {
        assert(spec_dec(n)[0] == digit_char(n as int));
        assert(digit_char(n as int) as int == 48 + n);
    } else {
        lemma_dec_digits(n / 10);
        assert forall|i: int|
            0 <= i < spec_dec(n).len() implies 48 <= #[trigger] spec_dec(n)[i] as int <= 57 by {
            if i < spec_dec(n / 10).len() {
                assert(spec_dec(n)[i] == spec_dec(n / 10)[i]);
            } else {
                assert(spec_dec(n)[i] == digit_char((n % 10) as int));
                assert(digit_char((n % 10) as int) as int == 48 + n % 10);
            }
        }
    }
}

/// A decimal representation holds no reserved query character.
proof fn lemma_dec_no_reserved(n: nat)
    ensures
        no_char(spec_dec(n), '&'),
        no_char(spec_dec(n), '='),
{
    lemma_dec_digits(n);
    assert('&' as int == 38);
    assert('=' as int == 61);
}

/// The query of the first-page search URL splits on `&` into exactly the
/// three fixed parameters, the `srsearch` assignment carrying the title,
/// and the fixed format parameter.
proof fn lemma_search_query_segments(base: Seq<char>, title: Seq<char>)
    requires
        no_char(title, '&'),
        no_char(base, '?'),
    ensures
        split_on(query_of(spec_search_url(base, title)), '&') == seq![
            "action=query"@,
            "list=search"@,
            "srwhat=text"@,
            "srsearch="@ + title,
            "format=json"@,
        ],
{
    reveal_strlit("/w/api.php?action=query&list=search&srwhat=text&srsearch=");
    reveal_strlit("&format=json");
    reveal_strlit("/w/api.php");
    reveal_strlit("action=query");
    reveal_strlit("list=search");
    reveal_strlit("srwhat=text");
    reveal_strlit("srsearch=");
    reveal_strlit("format=json");
    let url = spec_search_url(base, title);
    let pre = "/w/api.php"@;
    let a = "action=query"@;
    let b = "list=search"@;
    let c = "srwhat=text"@;
    let d = "srsearch="@;
    let e = "format=json"@;
    let amp = seq!['&'];
    let q = a + amp + b + amp + c + amp + (d + title) + amp + e;
    assert(url =~= (base + pre) + seq!['?'] + q);
    assert(no_char(pre, '?'));
    lemma_no_char_concat(base, pre, '?');
    lemma_find_char_concat(base + pre, seq!['?'] + q, '?');
    assert(url =~= (base + pre) + (seq!['?'] + q));
    assert((seq!['?'] + q)[0] == '?');
    assert(find_char(seq!['?'] + q, '?') == 0);
    assert(find_char(url, '?') == (base + pre).len());
    assert(query_of(url) =~= q);
    let y1 = b + amp + c + amp + (d + title) + amp + e;
    let y2 = c + amp + (d + title) + amp + e;
    let y3 = (d + title) + amp + e;
    assert(q =~= a + seq!['&'] + y1);
    assert(y1 =~= b + seq!['&'] + y2);
    assert(y2 =~= c + seq!['&'] + y3);
    assert(y3 =~= (d + title) + seq!['&'] + e);
    lemma_split_concat(a, y1, '&');
    lemma_split_concat(b, y2, '&');
    lemma_split_concat(c, y3, '&');
    lemma_split_concat(d + title, e, '&');
    assert(no_char(a, '&'));
    assert(no_char(b, '&'));
    assert(no_char(c, '&'));
    assert(no_char(d, '&'));
    assert(no_char(e, '&'));
    lemma_no_char_concat(d, title, '&');
    lemma_split_no_sep(a, '&');
    lemma_split_no_sep(b, '&');
    lemma_split_no_sep(c, '&');
    lemma_split_no_sep(d + title, '&');
    lemma_split_no_sep(e, '&');
    assert(split_on(q, '&') =~= seq![a, b, c, d + title, e]);
}

/// For every title free of reserved query characters, the first-page
/// search URL assigns `title`, verbatim, to exactly one `srsearch`
/// parameter, and to no `continue` and no `sroffset` parameter. The base
/// URL is the part before the path, so it holds no `?` of its own.
pub proof fn lemma_search_url_params(base: Seq<char>, title: Seq<char>)
    requires
        no_reserved_query_chars(title),
        no_char(base, '?'),
    ensures
        query_values(spec_search_url(base, title), "srsearch"@) == seq![title],
        query_values(spec_search_url(base, title), "continue"@) == Seq::<Seq<char>>::empty(),
        query_values(spec_search_url(base, title), "sroffset"@) == Seq::<Seq<char>>::empty(),
{
    lemma_search_query_segments(base, title);
    reveal_strlit("action=query");
    reveal_strlit("list=search");
    reveal_strlit("srwhat=text");
    reveal_strlit("srsearch=");
    reveal_strlit("format=json");
    reveal_strlit("srsearch");
    reveal_strlit("continue");
    reveal_strlit("sroffset");
    let a = "action=query"@;
    let b = "list=search"@;
    let c = "srwhat=text"@;
    let dt = "srsearch="@ + title;
    let e = "format=json"@;
    let segs = seq![a, b, c, dt, e];
    assert(dt.take(9) =~= "srsearch="@);
    let k1 = "srsearch"@;
    assert("srsearch="@ =~= k1.push('='));
    assert(is_assignment(dt, k1));
    assert(!is_assignment(a, k1)) by {
        assert(a.take(9)[0] == 'a');
        assert(k1.push('=')[0] == 's');
    }
    assert(!is_assignment(b, k1)) by {
        assert(b.take(9)[0] == 'l');
        assert(k1.push('=')[0] == 's');
    }
    assert(!is_assignment(c, k1)) by {
        assert(c.take(9)[2] == 'w');
        assert(k1.push('=')[2] == 's');
    }
    assert(!is_assignment(e, k1)) by {
        assert(e.take(9)[0] == 'f');
        assert(k1.push('=')[0] == 's');
    }
    assert forall|i: int|
        0 <= i < segs.len() && i != 3 implies !is_assignment(#[trigger] segs[i], k1) by {
        assert(segs[0] == a);
        assert(segs[1] == b);
        assert(segs[2] == c);
        assert(segs[4] == e);
    }
    lemma_values_single(segs, k1, 3);
    assert(segs[3].skip(k1.len() as int + 1) =~= title);
    assert(seq![segs[3].skip(k1.len() as int + 1)] =~= seq![title]);
    let k2 = "continue"@;
    assert(!is_assignment(a, k2)) by {
        assert(a.take(9)[0] == 'a');
        assert(k2.push('=')[0] == 'c');
    }
    assert(!is_assignment(b, k2)) by {
        assert(b.take(9)[0] == 'l');
        assert(k2.push('=')[0] == 'c');
    }
    assert(!is_assignment(c, k2)) by {
        assert(c.take(9)[0] == 's');
        assert(k2.push('=')[0] == 'c');
    }
    assert(!is_assignment(dt, k2)) by {
        assert(dt.take(9)[0] == 's');
        assert(k2.push('=')[0] == 'c');
    }
    assert(!is_assignment(e, k2)) by {
        assert(e.take(9)[0] == 'f');
        assert(k2.push('=')[0] == 'c');
    }
    assert forall|i: int| 0 <= i < segs.len() implies !is_assignment(#[trigger] segs[i], k2) by {
        assert(segs[0] == a);
        assert(segs[1] == b);
        assert(segs[2] == c);
        assert(segs[3] == dt);
        assert(segs[4] == e);
    }
    lemma_values_none(segs, k2);
    let k3 = "sroffset"@;
    assert(!is_assignment(a, k3)) by {
        assert(a.take(9)[0] == 'a');
        assert(k3.push('=')[0] == 's');
    }
    assert(!is_assignment(b, k3)) by {
        assert(b.take(9)[0] == 'l');
        assert(k3.push('=')[0] == 's');
    }
    assert(!is_assignment(c, k3)) by {
        assert(c.take(9)[2] == 'w');
        assert(k3.push('=')[2] == 'o');
    }
    assert(!is_assignment(dt, k3)) by {
        assert(dt.take(9)[2] == 's');
        assert(k3.push('=')[2] == 'o');
    }
    assert(!is_assignment(e, k3)) by {
        assert(e.take(9)[0] == 'f');
        assert(k3.push('=')[0] == 's');
    }
    assert forall|i: int| 0 <= i < segs.len() implies !is_assignment(#[trigger] segs[i], k3) by {
        assert(segs[0] == a);
        assert(segs[1] == b);
        assert(segs[2] == c);
        assert(segs[3] == dt);
        assert(segs[4] == e);
    }
    lemma_values_none(segs, k3);
}

/// The query of the continued-search URL splits on `&` into the five
/// segments of the first-page query followed by the `continue` and
/// `sroffset` assignments.
proof fn lemma_continue_query_segments(
    base: Seq<char>,
    title: Seq<char>,
    token: Seq<char>,
    offset: nat,
)
    requires
        no_char(title, '&'),
        no_char(token, '&'),
        no_char(base, '?'),
    ensures
        split_on(query_of(spec_continue_search_url(base, title, token, offset)), '&') == seq![
            "action=query"@,
            "list=search"@,
            "srwhat=text"@,
            "srsearch="@ + title,
            "format=json"@,
            "continue="@ + token,
            "sroffset="@ + spec_dec(offset),
        ],
{
    reveal_strlit("/w/api.php?action=query&list=search&srwhat=text&srsearch=");
    reveal_strlit("&format=json");
    reveal_strlit("&continue=");
    reveal_strlit("&sroffset=");
    reveal_strlit("/w/api.php");
    reveal_strlit("action=query");
    reveal_strlit("list=search");
    reveal_strlit("srwhat=text");
    reveal_strlit("srsearch=");
    reveal_strlit("format=json");
    reveal_strlit("continue=");
    reveal_strlit("sroffset=");
    let url = spec_continue_search_url(base, title, token, offset);
    let pre = "/w/api.php"@;
    let a = "action=query"@;
    let b = "list=search"@;
    let c = "srwhat=text"@;
    let d = "srsearch="@;
    let e = "format=json"@;
    let f = "continue="@ + token;
    let g = "sroffset="@ + spec_dec(offset);
    let amp = seq!['&'];
    let q = a + amp + b + amp + c + amp + (d + title) + amp + e + amp + f + amp + g;
    assert(url =~= (base + pre) + seq!['?'] + q);
    assert(no_char(pre, '?'));
    lemma_no_char_concat(base, pre, '?');
    lemma_find_char_concat(base + pre, seq!['?'] + q, '?');
    assert(url =~= (base + pre) + (seq!['?'] + q));
    assert((seq!['?'] + q)[0] == '?');
    assert(find_char(seq!['?'] + q, '?') == 0);
    assert(find_char(url, '?') == (base + pre).len());
    assert(query_of(url) =~= q);
    let y1 = b + amp + c + amp + (d + title) + amp + e + amp + f + amp + g;
    let y2 = c + amp + (d + title) + amp + e + amp + f + amp + g;
    let y3 = (d + title) + amp + e + amp + f + amp + g;
    let y4 = e + amp + f + amp + g;
    let y5 = f + amp + g;
    assert(q =~= a + seq!['&'] + y1);
    assert(y1 =~= b + seq!['&'] + y2);
    assert(y2 =~= c + seq!['&'] + y3);
    assert(y3 =~= (d + title) + seq!['&'] + y4);
    assert(y4 =~= e + seq!['&'] + y5);
    assert(y5 =~= f + seq!['&'] + g);
    lemma_split_concat(a, y1, '&');
    lemma_split_concat(b, y2, '&');
    lemma_split_concat(c, y3, '&');
    lemma_split_concat(d + title, y4, '&');
    lemma_split_concat(e, y5, '&');
    lemma_split_concat(f, g, '&');
    assert(no_char(a, '&'));
    assert(no_char(b, '&'));
    assert(no_char(c, '&'));
    assert(no_char(d, '&'));
    assert(no_char(e, '&'));
    assert(no_char("continue="@, '&'));
    assert(no_char("sroffset="@, '&'));
    lemma_no_char_concat(d, title, '&');
    lemma_no_char_concat("continue="@, token, '&');
    lemma_dec_no_reserved(offset);
    lemma_no_char_concat("sroffset="@, spec_dec(offset), '&');
    lemma_split_no_sep(a, '&');
    lemma_split_no_sep(b, '&');
    lemma_split_no_sep(c, '&');
    lemma_split_no_sep(d + title, '&');
    lemma_split_no_sep(e, '&');
    lemma_split_no_sep(f, '&');
    lemma_split_no_sep(g, '&');
    assert(split_on(q, '&') =~= seq![a, b, c, d + title, e, f, g]);
}

/// For every title and token free of reserved query characters, the
/// continued-search URL assigns `token` to exactly one `continue`
/// parameter and the decimal offset to exactly one `sroffset` parameter,
/// both verbatim, and still assigns `title` to exactly one `srsearch`
/// parameter.
pub proof fn lemma_continue_search_url_params(
    base: Seq<char>,
    title: Seq<char>,
    token: Seq<char>,
    offset: nat,
)
    requires
        no_reserved_query_chars(title),
        no_reserved_query_chars(token),
        no_char(base, '?'),
    ensures
        query_values(spec_continue_search_url(base, title, token, offset), "continue"@) == seq![
            token,
        ],
        query_values(spec_continue_search_url(base, title, token, offset), "sroffset"@) == seq![
            spec_dec(offset),
        ],
        query_values(spec_continue_search_url(base, title, token, offset), "srsearch"@) == seq![
            title,
        ],
{
    lemma_continue_query_segments(base, title, token, offset);
    reveal_strlit("action=query");
    reveal_strlit("list=search");
    reveal_strlit("srwhat=text");
    reveal_strlit("srsearch=");
    reveal_strlit("format=json");
    reveal_strlit("continue=");
    reveal_strlit("sroffset=");
    reveal_strlit("srsearch");
    reveal_strlit("continue");
    reveal_strlit("sroffset");
    let a = "action=query"@;
    let b = "list=search"@;
    let c = "srwhat=text"@;
    let dt = "srsearch="@ + title;
    let e = "format=json"@;
    let f = "continue="@ + token;
    let g = "sroffset="@ + spec_dec(offset);
    let segs = seq![a, b, c, dt, e, f, g];
    assert(dt.take(9) =~= "srsearch="@);
    assert(f.take(9) =~= "continue="@);
    assert(g.take(9) =~= "sroffset="@);
    let k1 = "srsearch"@;
    let k2 = "continue"@;
    let k3 = "sroffset"@;
    assert("srsearch="@ =~= k1.push('='));
    assert("continue="@ =~= k2.push('='));
    assert("sroffset="@ =~= k3.push('='));
    assert(is_assignment(dt, k1));
    assert(is_assignment(f, k2));
    assert(spec_dec(offset).len() >= 1);
    assert(is_assignment(g, k3));
    assert(!is_assignment(a, k1)) by {
        assert(a.take(9)[0] == 'a');
        assert(k1.push('=')[0] == 's');
    }
    assert(!is_assignment(b, k1)) by {
        assert(b.take(9)[0] == 'l');
        assert(k1.push('=')[0] == 's');
    }
    assert(!is_assignment(c, k1)) by {
        assert(c.take(9)[2] == 'w');
        assert(k1.push('=')[2] == 's');
    }
    assert(!is_assignment(e, k1)) by {
        assert(e.take(9)[0] == 'f');
        assert(k1.push('=')[0] == 's');
    }
    assert(!is_assignment(f, k1)) by {
        assert(f.take(9)[0] == 'c');
        assert(k1.push('=')[0] == 's');
    }
    assert(!is_assignment(g, k1)) by {
        assert(g.take(9)[2] == 'o');
        assert(k1.push('=')[2] == 's');
    }
    assert forall|i: int|
        0 <= i < segs.len() && i != 3 implies !is_assignment(#[trigger] segs[i], k1) by {
        assert(segs[0] == a);
        assert(segs[1] == b);
        assert(segs[2] == c);
        assert(segs[4] == e);
        assert(segs[5] == f);
        assert(segs[6] == g);
    }
    lemma_values_single(segs, k1, 3);
    assert(segs[3].skip(k1.len() as int + 1) =~= title);
    assert(seq![segs[3].skip(k1.len() as int + 1)] =~= seq![title]);
    assert(!is_assignment(a, k2)) by {
        assert(a.take(9)[0] == 'a');
        assert(k2.push('=')[0] == 'c');
    }
    assert(!is_assignment(b, k2)) by {
        assert(b.take(9)[0] == 'l');
        assert(k2.push('=')[0] == 'c');
    }
    assert(!is_assignment(c, k2)) by {
        assert(c.take(9)[0] == 's');
        assert(k2.push('=')[0] == 'c');
    }
    assert(!is_assignment(dt, k2)) by {
        assert(dt.take(9)[0] == 's');
        assert(k2.push('=')[0] == 'c');
    }
    assert(!is_assignment(e, k2)) by {
        assert(e.take(9)[0] == 'f');
        assert(k2.push('=')[0] == 'c');
    }
    assert(!is_assignment(g, k2)) by {
        assert(g.take(9)[0] == 's');
        assert(k2.push('=')[0] == 'c');
    }
    assert forall|i: int|
        0 <= i < segs.len() && i != 5 implies !is_assignment(#[trigger] segs[i], k2) by {
        assert(segs[0] == a);
        assert(segs[1] == b);
        assert(segs[2] == c);
        assert(segs[3] == dt);
        assert(segs[4] == e);
        assert(segs[6] == g);
    }
    lemma_values_single(segs, k2, 5);
    assert(segs[5].skip(k2.len() as int + 1) =~= token);
    assert(seq![segs[5].skip(k2.len() as int + 1)] =~= seq![token]);
    assert(!is_assignment(a, k3)) by {
        assert(a.take(9)[0] == 'a');
        assert(k3.push('=')[0] == 's');
    }
    assert(!is_assignment(b, k3)) by {
        assert(b.take(9)[0] == 'l');
        assert(k3.push('=')[0] == 's');
    }
    assert(!is_assignment(c, k3)) by {
        assert(c.take(9)[2] == 'w');
        assert(k3.push('=')[2] == 'o');
    }
    assert(!is_assignment(dt, k3)) by {
        assert(dt.take(9)[2] == 's');
        assert(k3.push('=')[2] == 'o');
    }
    assert(!is_assignment(e, k3)) by {
        assert(e.take(9)[0] == 'f');
        assert(k3.push('=')[0] == 's');
    }
    assert(!is_assignment(f, k3)) by {
        assert(f.take(9)[2] == 'n');
        assert(k3.push('=')[2] == 'o');
    }
    assert forall|i: int|
        0 <= i < segs.len() && i != 6 implies !is_assignment(#[trigger] segs[i], k3) by {
        assert(segs[0] == a);
        assert(segs[1] == b);
        assert(segs[2] == c);
        assert(segs[3] == dt);
        assert(segs[4] == e);
        assert(segs[5] == f);
    }
    lemma_values_single(segs, k3, 6);
    assert(segs[6].skip(k3.len() as int + 1) =~= spec_dec(offset));
    assert(seq![segs[6].skip(k3.len() as int + 1)] =~= seq![spec_dec(offset)]);
}

/// For every `(token, offset)` pair, the continued-search URL ends in
/// `continue={token}&sroffset={offset}`, the token and the offset echoed
/// verbatim, with no transformation.
pub proof fn lemma_continue_search_url_echoes(
    base: Seq<char>,
    title: Seq<char>,
    token: Seq<char>,
    offset: nat,
)
    ensures
        spec_continue_search_url(base, title, token, offset) == spec_search_url(base, title)
            + seq!['&'] + "continue="@ + token + "&sroffset="@ + spec_dec(offset),
{
    reveal_strlit("&continue=");
    reveal_strlit("continue=");
    reveal_strlit("&sroffset=");
    assert(spec_continue_search_url(base, title, token, offset) =~= spec_search_url(base, title)
        + seq!['&'] + "continue="@ + token + "&sroffset="@ + spec_dec(offset));
}

} // verus!

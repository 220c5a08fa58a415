use vstd::prelude::*;
use vstd::string::StrSliceExecFns;
use crate::article::ParsedArticle;
use crate::digits::push_char;

verus! {

/// A pluggable content parser: turns a raw HTML body into a structured
/// article. Implementors say in `spec_parse` what content their `parse`
/// produces, so that callers can reason about it.
pub trait Parser: Sized {
    /// The content that `parse` produces for a given HTML text.
    spec fn spec_parse(&self, html: Seq<char>) -> Seq<char>;

    /// Parses one HTML body into an article.
    fn parse(&self, html: &str) -> (r: ParsedArticle)
        ensures
            r.content@ == self.spec_parse(html@),
    ;
}

/// The text that remains of an HTML text when every tag is removed:
/// characters between `<` and the next `>` are dropped, the rest is kept
/// in order. `in_tag` says whether the text begins inside a tag.
pub open spec fn spec_strip_tags(s: Seq<char>, in_tag: bool) -> Seq<char>
    decreases s.len(),
{
    if s.len() == 0 {
        Seq::empty()
    } else if in_tag {
        spec_strip_tags(s.drop_first(), s[0] != '>')
    } else if s[0] == '<' {
        spec_strip_tags(s.drop_first(), true)
    } else {
        seq![s[0]] + spec_strip_tags(s.drop_first(), false)
    }
}

/// The default parser: keeps the text of the article and drops every HTML
/// tag, without interpreting the markup any further.
pub struct PlainTextParser;

impl Parser for PlainTextParser {
    open spec fn spec_parse(&self, html: Seq<char>) -> Seq<char> {
        spec_strip_tags(html, false)
    }

    fn parse(&self, html: &str) -> (r: ParsedArticle)
        ensures
            r.content@ == self.spec_parse(html@),
    {
        let n: usize = html.unicode_len();
        let mut out = String::new();
        let mut in_tag: bool = false;
        let mut i: usize = 0;
        proof {
            assert(html@.skip(0) =~= html@);
            assert(Seq::<char>::empty() + spec_strip_tags(html@, false) =~= spec_strip_tags(
                html@,
                false,
            ));
        }
        while i < n
            invariant
                n == html@.len(),
                i <= n,
                spec_strip_tags(html@, false) == out@ + spec_strip_tags(
                    html@.skip(i as int),
                    in_tag,
                ),
            decreases n - i,
        {
            let c = html.get_char(i);
            proof {
                assert(html@.skip(i as int)[0] == html@[i as int]);
                assert(html@.skip(i as int).drop_first() =~= html@.skip(i as int + 1));
            }
            if in_tag {
                in_tag = c != '>';
            } else if c == '<' {
                in_tag = true;
            } else {
                let ghost old_out = out@;
                push_char(&mut out, c);
                proof {
                    assert(out@ + spec_strip_tags(html@.skip(i as int + 1), false) =~= old_out
                        + (seq![c] + spec_strip_tags(html@.skip(i as int + 1), false)));
                }
            }
            i = i + 1;
        }
        proof {
            assert(html@.skip(n as int) =~= Seq::<char>::empty());
            assert(out@ + Seq::<char>::empty() =~= out@);
        }
        ParsedArticle { content: out }
    }
}

} // verus!

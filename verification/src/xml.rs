//! Entity escaping and the small building blocks from which the capability
//! and search-result documents are rendered. All dynamic text placed into an
//! XML text or attribute node goes through `escape_seq`/`escape_xml`.
use vstd::prelude::*;
use vstd::string::StringExecFns;
use crate::text::{chars_vec, push_char};

verus! {

/// How one character is rendered inside an XML text or attribute node.
pub open spec fn escape_char(c: char) -> Seq<char> {
    if c == '&' {
        "&amp;"@
    } else if c == '<' {
        "&lt;"@
    } else if c == '>' {
        "&gt;"@
    } else if c == '"' {
        "&quot;"@
    } else if c == '\'' {
        "&apos;"@
    } else {
        seq![c]
    }
}

/// The entity-escaped rendering of `s`.
pub open spec fn escape_seq(s: Seq<char>) -> Seq<char>
    decreases s.len(),
{
    if s.len() == 0 {
        Seq::<char>::empty()
    } else {
        escape_seq(s.drop_last()) + escape_char(s.last())
    }
}

/// Escapes `s` for use in an XML text or attribute node.
pub fn escape_xml(s: &str) -> (r: String)
    ensures
        r@ == escape_seq(s@),
{
    let cs = chars_vec(s);
    let mut out = String::new();
    let mut i: usize = 0;
    while i < cs.len()
        invariant
            cs@ == s@,
            i <= cs@.len(),
            out@ == escape_seq(s@.subrange(0, i as int)),
        decreases cs@.len() - i,
    {
        let ghost prev = s@.subrange(0, i as int);
        let c = cs[i];
        if c == '&' {
            out.append("&amp;");
        } else if c == '<' {
            out.append("&lt;");
        } else if c == '>' {
            out.append("&gt;");
        } else if c == '"' {
            out.append("&quot;");
        } else if c == '\'' {
            out.append("&apos;");
        } else {
            push_char(&mut out, c);
        }
        i = i + 1;
        proof {
            let step = s@.subrange(0, i as int);
            assert(step.drop_last() =~= prev);
            assert(step.last() == s@[i - 1]);
            assert(out@ =~= escape_seq(step));
        }
    }
    proof {
        assert(s@.subrange(0, s@.len() as int) =~= s@);
    }
    out
}

/// Whether `s` is free of raw markup characters.
pub open spec fn xml_safe(s: Seq<char>) -> bool {
    forall|i: int|
        0 <= i < s.len() ==> (#[trigger] s[i]) != '<' && s[i] != '>' && s[i] != '"' && s[i]
            != '\''
}

/// Whether one of the five escape entities starts at position `i` of `s`.
pub open spec fn entity_at(s: Seq<char>, i: int) -> bool {
    ||| (i + 5 <= s.len() && s.subrange(i, i + 5) == "&amp;"@)
    ||| (i + 4 <= s.len() && s.subrange(i, i + 4) == "&lt;"@)
    ||| (i + 4 <= s.len() && s.subrange(i, i + 4) == "&gt;"@)
    ||| (i + 6 <= s.len() && s.subrange(i, i + 6) == "&quot;"@)
    ||| (i + 6 <= s.len() && s.subrange(i, i + 6) == "&apos;"@)
}

/// Whether every ampersand in `s` starts an escape entity.
pub open spec fn amp_guarded(s: Seq<char>) -> bool {
    forall|i: int| 0 <= i < s.len() && (#[trigger] s[i]) == '&' ==> entity_at(s, i)
}

proof fn lemma_entity_at_left(a: Seq<char>, b: Seq<char>, i: int)
    requires
        0 <= i,
        entity_at(a, i),
    ensures
        entity_at(a + b, i),
{
    let c = a + b;
    if i + 5 <= a.len() && a.subrange(i, i + 5) == "&amp;"@ {
        assert(c.subrange(i, i + 5) =~= a.subrange(i, i + 5));
    } else if i + 4 <= a.len() && a.subrange(i, i + 4) == "&lt;"@ {
        assert(c.subrange(i, i + 4) =~= a.subrange(i, i + 4));
    } else if i + 4 <= a.len() && a.subrange(i, i + 4) == "&gt;"@ {
        assert(c.subrange(i, i + 4) =~= a.subrange(i, i + 4));
    } else if i + 6 <= a.len() && a.subrange(i, i + 6) == "&quot;"@ {
        assert(c.subrange(i, i + 6) =~= a.subrange(i, i + 6));
    } else {
        assert(c.subrange(i, i + 6) =~= a.subrange(i, i + 6));
    }
}

proof fn lemma_entity_at_right(a: Seq<char>, b: Seq<char>, j: int)
    requires
        0 <= j,
        entity_at(b, j),
    ensures
        entity_at(a + b, a.len() + j),
{
    let c = a + b;
    let i = a.len() + j;
    if j + 5 <= b.len() && b.subrange(j, j + 5) == "&amp;"@ {
        assert(c.subrange(i, i + 5) =~= b.subrange(j, j + 5));
    } else if j + 4 <= b.len() && b.subrange(j, j + 4) == "&lt;"@ {
        assert(c.subrange(i, i + 4) =~= b.subrange(j, j + 4));
    } else if j + 4 <= b.len() && b.subrange(j, j + 4) == "&gt;"@ {
        assert(c.subrange(i, i + 4) =~= b.subrange(j, j + 4));
    } else if j + 6 <= b.len() && b.subrange(j, j + 6) == "&quot;"@ {
        assert(c.subrange(i, i + 6) =~= b.subrange(j, j + 6));
    } else {
        assert(c.subrange(i, i + 6) =~= b.subrange(j, j + 6));
    }
}

proof fn lemma_guard_concat(a: Seq<char>, b: Seq<char>)
    requires
        xml_safe(a),
        xml_safe(b),
        amp_guarded(a),
        amp_guarded(b),
    ensures
        xml_safe(a + b),
        amp_guarded(a + b),
{
    let c = a + b;
    assert forall|i: int|
        0 <= i < c.len() implies (#[trigger] c[i]) != '<' && c[i] != '>' && c[i] != '"' && c[i]
        != '\'' by {
        if i < a.len() {
            assert(c[i] == a[i]);
        } else {
            assert(c[i] == b[i - a.len()]);
        }
    }
    assert forall|i: int| 0 <= i < c.len() && (#[trigger] c[i]) == '&' implies entity_at(c, i) by {
        if i < a.len() {
            assert(a[i] == '&');
            lemma_entity_at_left(a, b, i);
        } else {
            assert(b[i - a.len()] == '&');
            lemma_entity_at_right(a, b, i - a.len());
        }
    }
}

proof fn lemma_escape_char_guarded(c: char)
    ensures
        xml_safe(escape_char(c)),
        amp_guarded(escape_char(c)),
{
    reveal_strlit("&amp;");
    reveal_strlit("&lt;");
    reveal_strlit("&gt;");
    reveal_strlit("&quot;");
    reveal_strlit("&apos;");
    let e = escape_char(c);
    if c == '&' || c == '<' || c == '>' || c == '"' || c == '\'' {
        assert forall|i: int| 0 <= i < e.len() && (#[trigger] e[i]) == '&' implies entity_at(
            e,
            i,
        ) by {
            assert(i == 0);
            assert(e.subrange(0, e.len() as int) =~= e);
        }
    } else {
        assert(e =~= seq![c]);
    }
}

/// No escaped string exposes raw markup: the rendering of any text through
/// `escape_seq` contains no `<`, `>`, `"` or `'` at all, and every `&` in it
/// begins one of the five XML escape entities.
pub proof fn lemma_escape_xml_safe(s: Seq<char>)
    ensures
        xml_safe(escape_seq(s)),
        amp_guarded(escape_seq(s)),
    decreases s.len(),
{
    if s.len() > 0 {
        lemma_escape_xml_safe(s.drop_last());
        lemma_escape_char_guarded(s.last());
        lemma_guard_concat(escape_seq(s.drop_last()), escape_char(s.last()));
    }
}

/// One rendered attribute, ` name="value"`, the value escaped.
pub open spec fn attr_xml(name: Seq<char>, value: Seq<char>) -> Seq<char> {
    " "@ + name + "=\""@ + escape_seq(value) + "\""@
}

/// Appends ` name="value"` to `out`, escaping the value.
pub fn append_attr(out: &mut String, name: &str, value: &str)
    ensures
        final(out)@ == old(out)@ + attr_xml(name@, value@),
{
    out.append(" ");
    out.append(name);
    out.append("=\"");
    let e = escape_xml(value);
    out.append(e.as_str());
    out.append("\"");
    proof {
        assert(out@ =~= old(out)@ + attr_xml(name@, value@));
    }
}

/// One rendered element holding escaped text: `<name>text</name>`.
pub open spec fn text_element_xml(name: Seq<char>, text: Seq<char>) -> Seq<char> {
    "<"@ + name + ">"@ + escape_seq(text) + "</"@ + name + ">"@
}

/// Appends `<name>text</name>` to `out`, escaping the text.
pub fn append_text_element(out: &mut String, name: &str, text: &str)
    ensures
        final(out)@ == old(out)@ + text_element_xml(name@, text@),
{
    out.append("<");
    out.append(name);
    out.append(">");
    let e = escape_xml(text);
    out.append(e.as_str());
    out.append("</");
    out.append(name);
    out.append(">");
    proof {
        assert(out@ =~= old(out)@ + text_element_xml(name@, text@));
    }
}

} // verus!

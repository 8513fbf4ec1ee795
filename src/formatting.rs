use vstd::prelude::*;

verus! {

/// The style of a run of message text.
#[derive(Clone, Copy, Debug, PartialEq, Eq, Structural)]
pub enum SpanStyle {
    Plain,
    Italic,
    Bold,
    Underlined,
}

/// The kind of a formatting entity of a message; kinds that change nothing
/// in the text's style are `Other`.
#[derive(Clone, Copy, Debug, PartialEq, Eq, Structural)]
pub enum EntityKind {
    Italic,
    Bold,
    Underline,
    Other,
}

/// A formatting entity: a kind over `length` characters from `offset`.
#[derive(Clone, Copy, Debug, PartialEq, Eq, Structural)]
pub struct TextEntity {
    pub offset: i32,
    pub length: i32,
    pub kind: EntityKind,
}

/// A run of text in one style.
#[derive(Clone, Debug, PartialEq, Eq)]
pub struct StyledSpan {
    pub text: String,
    pub style: SpanStyle,
}

/// The mathematical value of a styled span.
pub struct SpanModel {
    pub text: Seq<char>,
    pub style: SpanStyle,
}

impl View for StyledSpan {
    type V = SpanModel;

    open spec fn view(&self) -> SpanModel {
        SpanModel { text: self.text@, style: self.style }
    }
}

/// The lines of a text, split at each newline.
pub open spec fn split_lines(s: Seq<char>) -> Seq<Seq<char>>
    decreases s.len(),
{
    if s.len() == 0 {
        seq![Seq::empty()]
    } else {
        let r = split_lines(s.drop_last());
        if s.last() == '\n' {
            r.push(Seq::empty())
        } else {
            r.update(r.len() - 1, r.last().push(s.last()))
        }
    }
}

proof fn lemma_split_lines_nonempty(s: Seq<char>)
    ensures
        split_lines(s).len() >= 1,
    decreases s.len(),
{
    if s.len() > 0 {
        lemma_split_lines_nonempty(s.drop_last());
    }
}

/// A span split into one span per line, each in the span's style.
pub open spec fn span_lines(s: SpanModel) -> Seq<SpanModel> {
    split_lines(s.text).map_values(|t: Seq<char>| SpanModel { text: t, style: s.style })
}

/// The lines of the non-empty spans, in order.
pub open spec fn nonempty_span_lines(spans: Seq<SpanModel>) -> Seq<SpanModel>
    decreases spans.len(),
{
    if spans.len() == 0 {
        Seq::empty()
    } else {
        nonempty_span_lines(spans.drop_last()) + if spans.last().text.len() == 0 {
            Seq::<SpanModel>::empty()
        } else {
            span_lines(spans.last())
        }
    }
}

/// Spans laid out as lines: empty spans are dropped, each remaining span is
/// split at its newlines, and no lines at all become one empty line.
pub open spec fn spans_to_lines_spec(spans: Seq<SpanModel>) -> Seq<SpanModel> {
    let r = nonempty_span_lines(spans);
    if r.len() == 0 {
        seq![SpanModel { text: Seq::empty(), style: SpanStyle::Plain }]
    } else {
        r
    }
}

pub open spec fn entity_style(k: EntityKind) -> Option<SpanStyle> {
    match k {
        EntityKind::Italic => Some(SpanStyle::Italic),
        EntityKind::Bold => Some(SpanStyle::Bold),
        EntityKind::Underline => Some(SpanStyle::Underlined),
        EntityKind::Other => None,
    }
}

/// Where an entity starts in a text of `n` characters; a negative offset
/// lies past the end.
pub open spec fn entity_start(e: TextEntity, n: nat) -> int {
    if e.offset < 0 || e.offset > n {
        n as int
    } else {
        e.offset as int
    }
}

/// Where an entity ends; a negative length reaches the end.
pub open spec fn entity_end(e: TextEntity, n: nat) -> int {
    let o = entity_start(e, n);
    if e.length < 0 || e.length > n - o {
        n as int
    } else {
        o + e.length
    }
}

/// The spans one entity contributes: the text before it, the styled text
/// it covers if its kind has a style, and the text after it.
pub open spec fn entity_spans(text: Seq<char>, e: TextEntity) -> Seq<SpanModel> {
    let o = entity_start(e, text.len());
    let end = entity_end(e, text.len());
    let before = seq![SpanModel { text: text.subrange(0, o), style: SpanStyle::Plain }];
    let after = seq![SpanModel { text: text.subrange(end, text.len() as int), style: SpanStyle::Plain }];
    match entity_style(e.kind) {
        Some(st) => before + seq![SpanModel { text: text.subrange(o, end), style: st }] + after,
        None => before + after,
    }
}

pub open spec fn all_entity_spans(text: Seq<char>, es: Seq<TextEntity>) -> Seq<SpanModel>
    decreases es.len(),
{
    if es.len() == 0 {
        Seq::empty()
    } else {
        all_entity_spans(text, es.drop_last()) + entity_spans(text, es.last())
    }
}

/// The styled lines of a message text with its entities.
pub open spec fn format_spec(text: Seq<char>, es: Seq<TextEntity>) -> Seq<SpanModel> {
    if es.len() == 0 {
        span_lines(SpanModel { text, style: SpanStyle::Plain })
    } else {
        spans_to_lines_spec(all_entity_spans(text, es))
    }
}

/// Splits a text at each newline.
pub fn split_text(text: &str) -> (r: Vec<String>)
    ensures
        r@.map_values(|l: String| l@) == split_lines(text@),
{
    let n = text.unicode_len();
    let mut lines: Vec<String> = Vec::new();
    let mut start: usize = 0;
    let mut i: usize = 0;
    assert(text@.take(0) =~= Seq::<char>::empty());
    assert(lines@.map_values(|l: String| l@).push(text@.subrange(0, 0)) =~= seq![
        Seq::<char>::empty(),
    ]);
    while i < n
        invariant
            n == text@.len(),
            start <= i <= n,
            lines@.map_values(|l: String| l@).push(text@.subrange(start as int, i as int))
                == split_lines(text@.take(i as int)),
        decreases n - i,
    {
        let ghost before = lines@.map_values(|l: String| l@);
        assert(text@.take(i + 1).drop_last() =~= text@.take(i as int));
        assert(text@.take(i + 1).last() == text@[i as int]);
        proof {
            lemma_split_lines_nonempty(text@.take(i as int));
        }
        let c = text.get_char(i);
        if c == '\n' {
            let line = text.substring_char(start, i).to_owned();
            lines.push(line);
            start = i + 1;
            assert(lines@.map_values(|l: String| l@) =~= before.push(line@));
            assert(text@.subrange(start as int, i + 1) =~= Seq::<char>::empty());
        } else {
            assert(text@.subrange(start as int, i + 1) =~= text@.subrange(start as int, i as int).push(
                c,
            ));
        }
        i = i + 1;
        assert(lines@.map_values(|l: String| l@).push(text@.subrange(start as int, i as int))
            =~= split_lines(text@.take(i as int)));
    }
    let ghost before = lines@.map_values(|l: String| l@);
    let last = text.substring_char(start, n).to_owned();
    lines.push(last);
    assert(lines@.map_values(|l: String| l@) =~= before.push(last@));
    assert(text@.take(n as int) =~= text@);
    lines
}

/// A text split into one span per line, all in `style`.
pub fn span_to_lines(text: &str, style: SpanStyle) -> (r: Vec<StyledSpan>)
    ensures
        r@.map_values(|s: StyledSpan| s@) == span_lines(SpanModel { text: text@, style }),
{
    let parts = split_text(text);
    let ghost target = span_lines(SpanModel { text: text@, style });
    let mut out: Vec<StyledSpan> = Vec::new();
    let mut i: usize = 0;
    while i < parts.len()
        invariant
            i <= parts@.len(),
            parts@.map_values(|l: String| l@) == split_lines(text@),
            target == span_lines(SpanModel { text: text@, style }),
            out@.map_values(|s: StyledSpan| s@) == target.take(i as int),
        decreases parts@.len() - i,
    {
        let ghost before = out@.map_values(|s: StyledSpan| s@);
        assert(parts@.map_values(|l: String| l@)[i as int] == parts@[i as int]@);
        assert(target.len() == parts@.len());
        let span = StyledSpan { text: parts[i].clone(), style };
        assert(span@ == target[i as int]);
        out.push(span);
        assert(out@.map_values(|s: StyledSpan| s@) =~= before.push(span@));
        assert(target.take(i as int).push(target[i as int]) =~= target.take(i + 1));
        i = i + 1;
    }
    assert(target.take(i as int) =~= target);
    out
}

/// Lays out spans as lines; see `spans_to_lines_spec`.
pub fn spans_to_lines(spans: &Vec<StyledSpan>) -> (r: Vec<StyledSpan>)
    ensures
        r@.map_values(|s: StyledSpan| s@) == spans_to_lines_spec(
            spans@.map_values(|s: StyledSpan| s@),
        ),
{
    let ghost sm = spans@.map_values(|s: StyledSpan| s@);
    let mut out: Vec<StyledSpan> = Vec::new();
    let mut i: usize = 0;
    assert(sm.take(0) =~= Seq::<SpanModel>::empty());
    assert(out@.map_values(|s: StyledSpan| s@) =~= Seq::<SpanModel>::empty());
    while i < spans.len()
        invariant
            i <= spans@.len(),
            sm == spans@.map_values(|s: StyledSpan| s@),
            out@.map_values(|s: StyledSpan| s@) == nonempty_span_lines(sm.take(i as int)),
        decreases spans@.len() - i,
    {
        assert(sm.take(i + 1).drop_last() =~= sm.take(i as int));
        assert(sm.take(i + 1).last() == spans@[i as int]@);
        let ghost before = out@.map_values(|s: StyledSpan| s@);
        if spans[i].text.unicode_len() > 0 {
            let mut lines = span_to_lines(spans[i].text.as_str(), spans[i].style);
            let ghost added = lines@.map_values(|s: StyledSpan| s@);
            out.append(&mut lines);
            assert(out@.map_values(|s: StyledSpan| s@) =~= before + added);
        } else {
            assert(before + Seq::<SpanModel>::empty() =~= before);
        }
        i = i + 1;
    }
    assert(sm.take(i as int) =~= sm);
    if out.len() == 0 {
        let mut one: Vec<StyledSpan> = Vec::new();
        one.push(StyledSpan { text: String::new(), style: SpanStyle::Plain });
        assert(one@.map_values(|s: StyledSpan| s@) =~= seq![
            SpanModel { text: Seq::<char>::empty(), style: SpanStyle::Plain },
        ]);
        one
    } else {
        out
    }
}

/// Appends the spans of one entity.
fn push_entity_spans(out: &mut Vec<StyledSpan>, text: &str, e: TextEntity)
    ensures
        final(out)@.map_values(|s: StyledSpan| s@) == old(out)@.map_values(|s: StyledSpan| s@)
            + entity_spans(text@, e),
{
    let ghost before = out@.map_values(|s: StyledSpan| s@);
    let n = text.unicode_len();
    let o: usize = if e.offset < 0 || e.offset as usize > n {
        n
    } else {
        e.offset as usize
    };
    let end: usize = if e.length < 0 || e.length as usize > n - o {
        n
    } else {
        o + e.length as usize
    };
    assert(o == entity_start(e, text@.len()));
    assert(end == entity_end(e, text@.len()));
    let first = StyledSpan { text: text.substring_char(0, o).to_owned(), style: SpanStyle::Plain };
    out.push(first);
    let style = match e.kind {
        EntityKind::Italic => Some(SpanStyle::Italic),
        EntityKind::Bold => Some(SpanStyle::Bold),
        EntityKind::Underline => Some(SpanStyle::Underlined),
        EntityKind::Other => None,
    };
    let ghost mid = out@.map_values(|s: StyledSpan| s@);
    match style {
        Some(st) => {
            let covered = StyledSpan { text: text.substring_char(o, end).to_owned(), style: st };
            out.push(covered);
            assert(out@.map_values(|s: StyledSpan| s@) =~= mid.push(covered@));
        },
        None => {},
    }
    let ghost mid2 = out@.map_values(|s: StyledSpan| s@);
    let last = StyledSpan { text: text.substring_char(end, n).to_owned(), style: SpanStyle::Plain };
    out.push(last);
    assert(out@.map_values(|s: StyledSpan| s@) =~= mid2.push(last@));
    assert(mid =~= before.push(first@));
    assert(out@.map_values(|s: StyledSpan| s@) =~= before + entity_spans(text@, e));
}

/// The styled lines of a message text: without entities the text is split
/// into plain lines; with them, each entity contributes its spans, which
/// are then laid out as lines.
pub fn format_message_content(text: &str, entities: &Vec<TextEntity>) -> (r: Vec<StyledSpan>)
    ensures
        r@.map_values(|s: StyledSpan| s@) == format_spec(text@, entities@),
{
    if entities.len() == 0 {
        return span_to_lines(text, SpanStyle::Plain);
    }
    let mut spans: Vec<StyledSpan> = Vec::new();
    let mut i: usize = 0;
    assert(entities@.take(0) =~= Seq::<TextEntity>::empty());
    assert(spans@.map_values(|s: StyledSpan| s@) =~= Seq::<SpanModel>::empty());
    while i < entities.len()
        invariant
            i <= entities@.len(),
            spans@.map_values(|s: StyledSpan| s@) == all_entity_spans(
                text@,
                entities@.take(i as int),
            ),
        decreases entities@.len() - i,
    {
        assert(entities@.take(i + 1).drop_last() =~= entities@.take(i as int));
        assert(entities@.take(i + 1).last() == entities@[i as int]);
        push_entity_spans(&mut spans, text, entities[i]);
        i = i + 1;
    }
    assert(entities@.take(i as int) =~= entities@);
    spans_to_lines(&spans)
}

} // verus!

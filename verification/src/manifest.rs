//! The asset manifest: one entry per line, `<name> <group> <source>`,
//! fields separated by runs of whitespace, blank lines ignored.

use crate::text::{chars_of, is_space, is_space_char, starts_with};
use vstd::prelude::*;

verus! {

/// Where the content of an entry comes from.
#[derive(Debug, Clone, PartialEq, Eq)]
pub enum Source {
    /// An absolute URL that has to be fetched.
    Remote(String),
    /// A path, relative to the base directory, of content already on disk.
    Local(String),
}

/// One line of the manifest.
#[derive(Debug, Clone, PartialEq, Eq)]
pub struct ManifestEntry {
    /// File base name of the raw and of the distributable artifact.
    pub name: String,
    /// Directory segment under which the entry's files are nested.
    pub group: String,
    /// Where the content comes from.
    pub source: Source,
}

/// A non-blank manifest line that does not have exactly three fields.
#[derive(Debug, Clone, Copy, PartialEq, Eq, Structural)]
pub struct ManifestError {
    /// Number of the offending line, counted from 1.
    pub line: usize,
    /// Number of fields found on it.
    pub found: usize,
}

/// Mathematical value of a [`Source`].
pub enum SourceView {
    Remote(Seq<char>),
    Local(Seq<char>),
}

/// Mathematical value of a [`ManifestError`].
pub struct ErrorView {
    pub line: nat,
    pub found: nat,
}

/// Mathematical value of a [`ManifestEntry`].
pub struct EntryView {
    pub name: Seq<char>,
    pub group: Seq<char>,
    pub source: SourceView,
}

impl SourceView {
    /// The text of the source field, whichever way it was classified.
    pub open spec fn text(self) -> Seq<char> {
        match self {
            SourceView::Remote(url) => url,
            SourceView::Local(path) => path,
        }
    }
}

impl View for Source {
    type V = SourceView;

    open spec fn view(&self) -> SourceView {
        match self {
            Source::Remote(url) => SourceView::Remote(url@),
            Source::Local(path) => SourceView::Local(path@),
        }
    }
}

impl DeepView for Source {
    type V = SourceView;

    open spec fn deep_view(&self) -> SourceView {
        self@
    }
}

impl View for ManifestEntry {
    type V = EntryView;

    open spec fn view(&self) -> EntryView {
        EntryView { name: self.name@, group: self.group@, source: self.source@ }
    }
}

impl DeepView for ManifestEntry {
    type V = EntryView;

    open spec fn deep_view(&self) -> EntryView {
        self@
    }
}

impl View for ManifestError {
    type V = ErrorView;

    open spec fn view(&self) -> ErrorView {
        ErrorView { line: self.line as nat, found: self.found as nat }
    }
}

/// The prefix that marks a source field as remote.
pub open spec fn remote_prefix() -> Seq<char> {
    seq!['h', 't', 't', 'p', 's', ':', '/', '/']
}

/// The source that a source field stands for: remote if and only if it
/// begins with `https://`.
pub open spec fn classify(field: Seq<char>) -> SourceView {
    if remote_prefix().is_prefix_of(field) {
        SourceView::Remote(field)
    } else {
        SourceView::Local(field)
    }
}

/// Number of characters of `text` in front of its first line feed; the
/// whole length where it has none.
pub open spec fn line_len(text: Seq<char>) -> nat
    decreases text.len(),
{
    if text.len() == 0 || text[0] == '\n' {
        0
    } else {
        1 + line_len(text.drop_first())
    }
}

/// Number of characters of `text` in front of its first separator; the
/// whole length where it has none.
pub open spec fn word_len(text: Seq<char>) -> nat
    decreases text.len(),
{
    if text.len() == 0 || is_space(text[0]) {
        0
    } else {
        1 + word_len(text.drop_first())
    }
}

/// A word is no longer than the text it is taken from.
pub proof fn lemma_word_len_bound(text: Seq<char>)
    ensures
        word_len(text) <= text.len(),
    decreases text.len(),
{
    if text.len() > 0 {
        lemma_word_len_bound(text.drop_first());
    }
}

/// The lines of `text`: the stretches between line feeds. A text with `k`
/// line feeds has `k + 1` lines, the last of which may be empty.
pub open spec fn lines(text: Seq<char>) -> Seq<Seq<char>>
    decreases text.len(),
{
    let n = line_len(text);
    if n >= text.len() {
        seq![text]
    } else {
        seq![text.take(n as int)] + lines(text.skip(n as int + 1))
    }
}

/// The fields of `line`: its maximal runs of characters that are not
/// separators, from left to right.
pub open spec fn fields(line: Seq<char>) -> Seq<Seq<char>>
    decreases line.len(),
{
    if line.len() == 0 {
        Seq::empty()
    } else if is_space(line[0]) {
        fields(line.drop_first())
    } else {
        let n = word_len(line);
        proof {
            lemma_word_len_bound(line);
        }
        seq![line.take(n as int)] + fields(line.skip(n as int))
    }
}

/// A text that is not empty and holds no separator.
pub open spec fn is_word(s: Seq<char>) -> bool {
    s.len() > 0 && forall|i: int| 0 <= i < s.len() ==> !is_space(#[trigger] s[i])
}

/// A line without any field.
pub open spec fn is_blank(line: Seq<char>) -> bool {
    fields(line).len() == 0
}

/// A line that has fields, but not exactly three.
pub open spec fn is_malformed(line: Seq<char>) -> bool {
    fields(line).len() != 0 && fields(line).len() != 3
}

/// The entry that a line with three fields stands for.
pub open spec fn entry_of(line: Seq<char>) -> EntryView {
    let f = fields(line);
    EntryView { name: f[0], group: f[1], source: classify(f[2]) }
}

/// The lines of `ls` that are not blank, in order.
pub open spec fn occupied(ls: Seq<Seq<char>>) -> Seq<Seq<char>> {
    ls.filter(|l: Seq<char>| !is_blank(l))
}

/// The entries of the lines `ls`, one per line that is not blank, in order.
pub open spec fn entries_of(ls: Seq<Seq<char>>) -> Seq<EntryView> {
    occupied(ls).map_values(|l: Seq<char>| entry_of(l))
}

/// Index of the first malformed line among `ls[from..]`, if there is one.
pub open spec fn first_malformed(ls: Seq<Seq<char>>, from: int) -> Option<int>
    decreases ls.len() - from,
{
    if from < 0 || from >= ls.len() {
        None
    } else if is_malformed(ls[from]) {
        Some(from)
    } else {
        first_malformed(ls, from + 1)
    }
}

/// What parsing `text` yields: the error for its first malformed line, or,
/// where no line is malformed, its entries.
pub open spec fn parse(text: Seq<char>) -> Result<Seq<EntryView>, ErrorView> {
    let ls = lines(text);
    match first_malformed(ls, 0) {
        Some(i) => Err(ErrorView { line: (i + 1) as nat, found: fields(ls[i]).len() }),
        None => Ok(entries_of(ls)),
    }
}

/// Mathematical value of a parse result.
pub open spec fn parsed(r: Result<Vec<ManifestEntry>, ManifestError>) -> Result<
    Seq<EntryView>,
    ErrorView,
> {
    match r {
        Ok(entries) => Ok(entries.deep_view()),
        Err(e) => Err(e@),
    }
}

/// `line_len` is the one index up to which no line feed stands and at
/// which the text ends or a line feed stands.
pub proof fn lemma_line_len(text: Seq<char>, n: int)
    requires
        0 <= n <= text.len(),
        forall|j: int| 0 <= j < n ==> text[j] != '\n',
        n < text.len() ==> text[n] == '\n',
    ensures
        line_len(text) == n,
    decreases n,
{
    if n > 0 {
        lemma_line_len(text.drop_first(), n - 1);
    }
}

/// `word_len` is the one index up to which no separator stands and at
/// which the text ends or a separator stands.
pub proof fn lemma_word_len(text: Seq<char>, n: int)
    requires
        0 <= n <= text.len(),
        forall|j: int| 0 <= j < n ==> !is_space(text[j]),
        n < text.len() ==> is_space(text[n]),
    ensures
        word_len(text) == n,
    decreases n,
{
    if n > 0 {
        lemma_word_len(text.drop_first(), n - 1);
    }
}

/// A stretch `[start, end)` of a text, by character indices.
struct Span {
    start: usize,
    end: usize,
}

impl Span {
    /// The characters of `text` that the span covers.
    spec fn of(self, text: Seq<char>) -> Seq<char> {
        text.subrange(self.start as int, self.end as int)
    }

    /// The span lies inside `[lo, hi)`.
    spec fn within(self, lo: int, hi: int) -> bool {
        lo <= self.start <= self.end <= hi
    }
}

/// The spans of the fields of the line `chars[start..end)`.
fn split_fields(chars: &Vec<char>, start: usize, end: usize) -> (spans: Vec<Span>)
    requires
        start <= end <= chars.len(),
    ensures
        spans.len() == fields(chars@.subrange(start as int, end as int)).len(),
        forall|k: int|
            0 <= k < spans.len() ==> (#[trigger] spans[k]).within(start as int, end as int)
                && spans[k].of(chars@) == fields(chars@.subrange(start as int, end as int))[k],
{
    let ghost line = chars@.subrange(start as int, end as int);
    let ghost mut found: Seq<Seq<char>> = Seq::empty();
    let mut spans: Vec<Span> = Vec::new();
    let mut i: usize = start;
    assert(found + fields(chars@.subrange(i as int, end as int)) =~= fields(line));
    while i < end
        invariant
            start <= i <= end <= chars.len(),
            line == chars@.subrange(start as int, end as int),
            found.len() == spans.len(),
            forall|k: int|
                0 <= k < spans.len() ==> (#[trigger] spans[k]).within(start as int, end as int)
                    && spans[k].of(chars@) == found[k],
            fields(line) == found + fields(chars@.subrange(i as int, end as int)),
        decreases end - i,
    {
        let ghost rest = chars@.subrange(i as int, end as int);
        if is_space_char(chars[i]) {
            assert(rest.drop_first() =~= chars@.subrange(i + 1, end as int));
            i += 1;
        } else {
            let begin: usize = i;
            while i < end && !is_space_char(chars[i])
                invariant
                    begin <= i <= end <= chars.len(),
                    forall|j: int| begin <= j < i ==> !is_space(chars@[j]),
                decreases end - i,
            {
                i += 1;
            }
            proof {
                lemma_word_len(rest, i - begin);
                assert(rest.take(i - begin) =~= chars@.subrange(begin as int, i as int));
                assert(rest.skip(i - begin) =~= chars@.subrange(i as int, end as int));
                assert(found.push(rest.take(i - begin)) + fields(rest.skip(i - begin)) =~= found
                    + fields(rest));
                found = found.push(rest.take(i - begin));
            }
            spans.push(Span { start: begin, end: i });
        }
    }
    assert(fields(chars@.subrange(end as int, end as int)) =~= Seq::<Seq<char>>::empty());
    assert(found =~= fields(line));
    spans
}

/// No separator stands in front of the end of the first word.
pub proof fn lemma_word_len_prefix(text: Seq<char>)
    ensures
        word_len(text) <= text.len(),
        forall|j: int| 0 <= j < word_len(text) ==> !is_space(#[trigger] text[j]),
    decreases text.len(),
{
    if text.len() > 0 && !is_space(text[0]) {
        let tail = text.drop_first();
        lemma_word_len_prefix(tail);
        assert forall|j: int| 0 <= j < word_len(text) implies !is_space(#[trigger] text[j]) by {
            if j > 0 {
                assert(text[j] == tail[j - 1]);
            }
        }
    }
}

/// Every field is a word: it is not empty and holds no separator.
pub proof fn lemma_fields_are_words(line: Seq<char>)
    ensures
        forall|k: int| 0 <= k < fields(line).len() ==> is_word(#[trigger] fields(line)[k]),
    decreases line.len(),
{
    if line.len() == 0 {
        assert(fields(line).len() == 0);
    } else if is_space(line[0]) {
        lemma_fields_are_words(line.drop_first());
        assert(fields(line) == fields(line.drop_first()));
    } else {
        let n = word_len(line);
        lemma_word_len_prefix(line);
        lemma_fields_are_words(line.skip(n as int));
        assert(is_word(line.take(n as int)));
        assert forall|k: int| 0 <= k < fields(line).len() implies is_word(
            #[trigger] fields(line)[k],
        ) by {
            if k > 0 {
                assert(fields(line)[k] == fields(line.skip(n as int))[k - 1]);
            }
        }
    }
}

/// Where no line of `ls[from..at]` is malformed, the first malformed line
/// from `from` on is `ls[at]` if that one is malformed, and the search goes
/// on behind it if it is not.
pub proof fn lemma_first_malformed(ls: Seq<Seq<char>>, from: int, at: int)
    requires
        0 <= from <= at <= ls.len(),
        forall|j: int| from <= j < at ==> !is_malformed(#[trigger] ls[j]),
    ensures
        first_malformed(ls, from) == if at < ls.len() && is_malformed(ls[at]) {
            Some(at)
        } else {
            first_malformed(ls, at + 1)
        },
    decreases at - from,
{
    if from < at {
        lemma_first_malformed(ls, from + 1, at);
    }
}

/// Appending a line to `ls` appends its entry, unless the line is blank.
pub proof fn lemma_entries_of_push(ls: Seq<Seq<char>>, line: Seq<char>)
    ensures
        entries_of(ls.push(line)) == if is_blank(line) {
            entries_of(ls)
        } else {
            entries_of(ls).push(entry_of(line))
        },
{
    reveal(Seq::filter);
    assert(ls.push(line).drop_last() =~= ls);
    if !is_blank(line) {
        assert(occupied(ls.push(line)) == occupied(ls).push(line));
        assert(entries_of(ls.push(line)) =~= entries_of(ls).push(entry_of(line)));
    }
}

/// What [`first_malformed`] finds: a malformed line with no malformed line
/// between `from` and it, or nothing where no line from `from` on is
/// malformed.
pub proof fn lemma_first_malformed_found(ls: Seq<Seq<char>>, from: int)
    requires
        0 <= from,
    ensures
        match first_malformed(ls, from) {
            Some(i) => from <= i < ls.len() && is_malformed(ls[i]) && forall|j: int|
                from <= j < i ==> !is_malformed(#[trigger] ls[j]),
            None => forall|j: int| from <= j < ls.len() ==> !is_malformed(#[trigger] ls[j]),
        },
    decreases ls.len() - from,
{
    if from < ls.len() && !is_malformed(ls[from]) {
        lemma_first_malformed_found(ls, from + 1);
    }
}

/// A manifest in which every line is blank or has three fields parses to
/// one entry per line that is not blank, in the order of the text. Each
/// entry holds the three fields of its line, and it is remote if and only
/// if the third field begins with `https://`.
pub proof fn lemma_well_formed_manifest(text: Seq<char>)
    requires
        forall|i: int| 0 <= i < lines(text).len() ==> !is_malformed(#[trigger] lines(text)[i]),
    ensures
        parse(text) is Ok,
        parse(text)->Ok_0.len() == occupied(lines(text)).len(),
        forall|k: int|
            #![trigger parse(text)->Ok_0[k]]
            0 <= k < occupied(lines(text)).len() ==> {
                let line = occupied(lines(text))[k];
                let entry = parse(text)->Ok_0[k];
                &&& fields(line).len() == 3
                &&& is_word(entry.name) && is_word(entry.group) && is_word(entry.source.text())
                &&& entry.name == fields(line)[0]
                &&& entry.group == fields(line)[1]
                &&& entry.source.text() == fields(line)[2]
                &&& entry.source is Remote <==> remote_prefix().is_prefix_of(fields(line)[2])
            },
{
    let ls = lines(text);
    lemma_first_malformed(ls, 0, ls.len() as int);
    let keep = |l: Seq<char>| !is_blank(l);
    let entries = parse(text)->Ok_0;
    assert forall|k: int| 0 <= k < occupied(ls).len() implies {
        let line = occupied(ls)[k];
        let entry = #[trigger] entries[k];
        &&& fields(line).len() == 3
        &&& is_word(entry.name) && is_word(entry.group) && is_word(entry.source.text())
        &&& entry == entry_of(line)
    } by {
        let line = occupied(ls)[k];
        ls.lemma_filter_pred(keep, k);
        assert(occupied(ls).contains(line));
        ls.lemma_filter_contains_rev(keep, line);
        let i = choose|i: int| 0 <= i < ls.len() && ls[i] == line;
        assert(!is_malformed(ls[i]));
        lemma_fields_are_words(line);
        assert(is_word(fields(line)[0]) && is_word(fields(line)[1]) && is_word(fields(line)[2]));
    }
}

/// Where some line of a manifest is malformed, parsing fails, and what is
/// reported is the first malformed line: its number, counted from 1, and
/// the number of fields on it.
pub proof fn lemma_malformed_manifest(text: Seq<char>)
    requires
        exists|i: int| 0 <= i < lines(text).len() && is_malformed(#[trigger] lines(text)[i]),
    ensures
        parse(text) is Err,
        ({
            let e = parse(text)->Err_0;
            let ls = lines(text);
            &&& 1 <= e.line <= ls.len()
            &&& is_malformed(ls[e.line - 1])
            &&& forall|j: int| 0 <= j < e.line - 1 ==> !is_malformed(#[trigger] ls[j])
            &&& e.found == fields(ls[e.line - 1]).len()
        }),
{
    lemma_first_malformed_found(lines(text), 0);
}

/// Classifies a source field.
pub fn classify_source(field: &str) -> (source: Source)
    ensures
        source@ == classify(field@),
{
    let prefix = chars_of("https://");
    proof {
        reveal_strlit("https://");
        assert(prefix@ =~= remote_prefix());
    }
    let chars = chars_of(field);
    if starts_with(&chars, &prefix) {
        Source::Remote(field.to_owned())
    } else {
        Source::Local(field.to_owned())
    }
}

impl ManifestEntry {
    /// The entry for the three fields of a manifest line.
    pub fn new(name: &str, group: &str, source: &str) -> (entry: ManifestEntry)
        ensures
            entry@ == (EntryView { name: name@, group: group@, source: classify(source@) }),
    {
        ManifestEntry { name: name.to_owned(), group: group.to_owned(), source: classify_source(source) }
    }
}

/// Parses the text of a manifest.
///
/// Yields the entries of the lines that are not blank, in the order of the
/// text, unless a line that is not blank has another number of fields than
/// three: then the first such line is reported, with its number counted
/// from 1 and the number of fields on it.
pub fn parse_manifest(text: &str) -> (r: Result<Vec<ManifestEntry>, ManifestError>)
    ensures
        parsed(r) == parse(text@),
{
    let chars = chars_of(text);
    let n: usize = chars.len();
    let mut entries: Vec<ManifestEntry> = Vec::new();
    let mut pos: usize = 0;
    let mut line_index: usize = 0;
    let ghost mut done: Seq<Seq<char>> = Seq::empty();
    assert(text@.skip(0) =~= text@);
    assert(done + lines(text@) =~= lines(text@));
    assert(entries.deep_view() =~= entries_of(done)) by {
        reveal(Seq::filter);
    }
    loop
        invariant
            chars@ == text@,
            n == chars.len(),
            pos <= n,
            line_index == done.len(),
            line_index <= pos,
            lines(text@) == done + lines(text@.skip(pos as int)),
            forall|j: int| 0 <= j < done.len() ==> !is_malformed(#[trigger] done[j]),
            entries.deep_view() == entries_of(done),
        decreases n - pos,
    {
        let mut end: usize = pos;
        while end < n && chars[end] != '\n'
            invariant
                pos <= end <= n,
                n == chars.len(),
                forall|j: int| pos <= j < end ==> chars@[j] != '\n',
            decreases n - end,
        {
            end += 1;
        }
        let ghost rest = text@.skip(pos as int);
        let ghost line = chars@.subrange(pos as int, end as int);
        let ghost ls = lines(text@);
        proof {
            lemma_line_len(rest, end - pos);
            assert(rest.take(end - pos) =~= line);
            if end < n {
                assert(rest.skip(end - pos + 1) =~= text@.skip(end + 1));
                assert(lines(rest) == seq![line] + lines(text@.skip(end + 1)));
            } else {
                assert(rest =~= line);
                assert(lines(rest) == seq![line]);
            }
            assert(lines(rest)[0] == line);
            assert(ls[line_index as int] == line);
            assert forall|j: int| 0 <= j < line_index implies !is_malformed(#[trigger] ls[j]) by {
                assert(ls[j] == done[j]);
            }
            lemma_first_malformed(ls, 0, line_index as int);
        }
        let spans = split_fields(&chars, pos, end);
        if spans.len() != 0 {
            assert(line.len() > 0);
            if spans.len() != 3 {
                return Err(ManifestError { line: line_index + 1, found: spans.len() });
            }
            assert(spans[0].within(pos as int, end as int));
            assert(spans[1].within(pos as int, end as int));
            assert(spans[2].within(pos as int, end as int));
            let name = text.substring_char(spans[0].start, spans[0].end);
            let group = text.substring_char(spans[1].start, spans[1].end);
            let source = text.substring_char(spans[2].start, spans[2].end);
            let entry = ManifestEntry::new(name, group, source);
            assert(entry@ == entry_of(line));
            let ghost before = entries.deep_view();
            entries.push(entry);
            assert(entries.deep_view() =~= before.push(entry@));
        }
        proof {
            lemma_entries_of_push(done, line);
            done = done.push(line);
        }
        if end == n {
            proof {
                assert(ls =~= done);
                lemma_first_malformed(ls, 0, ls.len() as int);
            }
            return Ok(entries);
        }
        proof {
            assert(done + lines(text@.skip(end + 1)) =~= ls);
        }
        pos = end + 1;
        line_index += 1;
    }
}

} // verus!

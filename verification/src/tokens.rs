//! Generated code as the library holds it: a sequence of segments, each the
//! source text of some tokens or a `compile_error!` with its message, and the
//! place in the user's code that a compile error points at.
use vstd::prelude::*;

verus! {

/// Where the tokens of a compile error point: the macro's call site; the
/// item that the macro is applied to (its name, for the derives); or the
/// span numbered `n` by the caller (the position of a function input, for
/// errors about one).
#[derive(Clone, Copy, PartialEq, Eq, Structural, Debug)]
pub enum Site {
    CallSite,
    Item,
    Span(usize),
}

/// One piece of generated code.
#[derive(Clone, Debug)]
pub enum Segment {
    /// Source text of tokens, at the call site.
    Code(String),
    /// `compile_error!(message);`, pointing at the site.
    CompileError(Site, String),
    /// The tokens of the item that the macro is applied to, as written.
    Input,
}

/// What a segment stands for.
pub ghost enum SegmentView {
    Code(Seq<char>),
    CompileError(Site, Seq<char>),
    Input,
}

impl View for Segment {
    type V = SegmentView;

    open spec fn view(&self) -> SegmentView {
        match self {
            Segment::Code(t) => SegmentView::Code(t@),
            Segment::CompileError(site, m) => SegmentView::CompileError(*site, m@),
            Segment::Input => SegmentView::Input,
        }
    }
}

impl Segment {
    /// A copy of this segment.
    pub fn duplicate(&self) -> (r: Segment)
        ensures
            r@ == self@,
    {
        match self {
            Segment::Code(t) => Segment::Code(t.clone()),
            Segment::CompileError(site, m) => Segment::CompileError(*site, m.clone()),
            Segment::Input => Segment::Input,
        }
    }
}

/// A stream of generated tokens, as its segments in order.
#[derive(Clone, Debug)]
pub struct Tokens {
    pub segments: Vec<Segment>,
}

impl View for Tokens {
    type V = Seq<SegmentView>;

    open spec fn view(&self) -> Seq<SegmentView> {
        self.segments@.map_values(|s: Segment| s@)
    }
}

impl Tokens {
    /// No tokens.
    pub fn new() -> (r: Tokens)
        ensures
            r@ == Seq::<SegmentView>::empty(),
    {
        Tokens { segments: Vec::new() }
    }

    /// Appends one segment.
    pub fn push(&mut self, s: Segment)
        ensures
            final(self)@ == old(self)@.push(s@),
    {
        self.segments.push(s);
        assert(self@ =~= old(self)@.push(s@));
    }

    /// Appends the segments of `other`, in order.
    pub fn append_all(&mut self, other: &Tokens)
        ensures
            final(self)@ == old(self)@ + other@,
    {
        let ghost start = self@;
        let mut i: usize = 0;
        while i < other.segments.len()
            invariant
                i <= other@.len(),
                self@ == start + other@.take(i as int),
            decreases other@.len() - i,
        {
            self.push(other.segments[i].duplicate());
            i = i + 1;
            assert(other@.take(i as int) == other@.take((i - 1) as int).push(other@[i - 1]));
        }
        assert(other@.take(other@.len() as int) == other@);
    }
}

/// The text of a compile error that the macros report:
/// `[java-bindgen]`, a line break, the message and a line break.
pub open spec fn framed(message: Seq<char>) -> Seq<char> {
    "[java-bindgen]\n"@ + message + "\n"@
}

/// Compile errors gathered while expanding a macro, in the order they came.
pub struct CompileErrors {
    quote: Tokens,
}

impl View for CompileErrors {
    type V = Seq<SegmentView>;

    closed spec fn view(&self) -> Seq<SegmentView> {
        self.quote@
    }
}

impl Default for CompileErrors {
    fn default() -> (r: CompileErrors)
        ensures
            r@ == Seq::<SegmentView>::empty(),
    {
        CompileErrors { quote: Tokens::new() }
    }
}

impl CompileErrors {
    /// Adds `message`, framed, as a compile error at the call site.
    pub fn add(&mut self, message: String)
        ensures
            final(self)@ == old(self)@.push(
                SegmentView::CompileError(Site::CallSite, framed(message@)),
            ),
    {
        let msg = frame(&message);
        self.quote.push(Segment::CompileError(Site::CallSite, msg));
    }

    /// Adds `message`, framed, as a compile error pointing at `span`.
    pub fn add_spaned(&mut self, span: Site, message: String)
        ensures
            final(self)@ == old(self)@.push(SegmentView::CompileError(span, framed(message@))),
    {
        let msg = frame(&message);
        self.quote.push(Segment::CompileError(span, msg));
    }

    /// Appends the gathered errors to `tokens`.
    pub fn to_tokens(&self, tokens: &mut Tokens)
        ensures
            final(tokens)@ == old(tokens)@ + self@,
    {
        tokens.append_all(&self.quote);
    }

    /// The gathered errors as tokens.
    pub fn into_tokens(self) -> (r: Tokens)
        ensures
            r@ == self@,
    {
        self.quote
    }
}

impl From<CompileErrors> for Tokens {
    fn from(value: CompileErrors) -> (r: Tokens)
        ensures
            r@ == value@,
    {
        value.quote
    }
}

impl vstd::std_specs::convert::FromSpecImpl<CompileErrors> for Tokens {
    open spec fn obeys_from_spec() -> bool {
        true
    }

    closed spec fn from_spec(v: CompileErrors) -> Tokens {
        v.quote
    }
}

fn frame(message: &String) -> (r: String)
    ensures
        r@ == framed(message@),
{
    let mut r = String::from_str("[java-bindgen]\n");
    r.append(message.as_str());
    r.append("\n");
    r
}

/// `compile_error!(message);` pointing at `span`.
pub fn error(span: Site, message: String) -> (r: Tokens)
    ensures
        r@ == seq![SegmentView::CompileError(span, message@)],
{
    let mut r = Tokens::new();
    r.push(Segment::CompileError(span, message));
    r
}

/// Whether proc-macro2's own lexer (`fallback::TokenStream::from_str_checked`)
/// accepts `text`: it lexes, with balanced delimiters.
pub uninterp spec fn fallback_lexes(text: Seq<char>) -> bool;

/// Calls `proc_macro2::TokenStream::from_str` on `text` and says whether it
/// gave `Ok`. Trusted for one fact only: it gives `Ok` only where
/// proc-macro2's own lexer accepts the text, since that lexer decides
/// outside a procedural macro and is consulted before the compiler's inside
/// one. Whether a text that it accepts is also accepted is not stated: inside
/// a procedural macro the compiler's lexer has a say too.
#[verifier::external_body]
pub(crate) fn text_lexes(text: &str) -> (r: bool)
    ensures
        r ==> fallback_lexes(text@),
{
    <proc_macro2::TokenStream as std::str::FromStr>::from_str(text).is_ok()
}

/// What `ts2` gives for `s` when the lexer's verdict on `s` is `lexed`:
/// `s` where it lexes, else the comment `/* Error */`.
pub open spec fn ts2_text(lexed: bool, s: Seq<char>) -> Seq<char> {
    if lexed {
        s
    } else {
        "/* Error */"@
    }
}

/// The source text of the tokens in `tokens` where the lexer accepted it
/// (`lexed`), else the text of the comment `/* Error */` (no tokens at all).
pub fn ts2_from(lexed: bool, tokens: &str) -> (r: String)
    ensures
        r@ == ts2_text(lexed, tokens@),
{
    if lexed {
        String::from_str(tokens)
    } else {
        String::from_str("/* Error */")
    }
}

/// The source text of the tokens in `tokens`, or of the comment
/// `/* Error */` where the lexer rejects `tokens`; which of the two depends
/// on the lexer that runs, save that a text that proc-macro2's own lexer
/// rejects always gives the comment.
pub fn ts2(tokens: &str) -> (r: String)
    ensures
        r@ == tokens@ || r@ == "/* Error */"@,
        !fallback_lexes(tokens@) ==> r@ == "/* Error */"@,
{
    ts2_from(text_lexes(tokens), tokens)
}

} // verus!

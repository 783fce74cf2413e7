//! Source text as the generator sees it: tokens, fragments made of tokens,
//! the text a fragment is written out as, and diagnostics.

use vstd::prelude::*;

verus! {

/// The span that stands for "the place where the generator was invoked".
pub const CALL_SITE: usize = 0;

/// One lexical token of a fragment.
///
/// `glued` says that the token is written directly against the one that
/// follows it (`:` `:` for `::`, `'` `a` for a lifetime); otherwise a single
/// space follows it when the fragment is written out.
pub struct Token {
    pub text: String,
    pub glued: bool,
}

/// The mathematical value of a [`Token`].
pub struct TokenView {
    pub text: Seq<char>,
    pub glued: bool,
}

impl View for Token {
    type V = TokenView;

    open spec fn view(&self) -> TokenView {
        TokenView { text: self.text@, glued: self.glued }
    }
}

/// The values of a run of tokens.
pub open spec fn tokens_view(ts: Seq<Token>) -> Seq<TokenView> {
    ts.map_values(|t: Token| t@)
}

/// A piece of source code handed to the generator: a type, an expression, a
/// predicate, a generic parameter list. `span` names the place it was
/// written at, for diagnostics.
pub struct Fragment {
    pub tokens: Vec<Token>,
    pub span: usize,
}

/// The mathematical value of a [`Fragment`].
pub struct FragmentView {
    pub tokens: Seq<TokenView>,
    pub span: usize,
}

impl View for Fragment {
    type V = FragmentView;

    open spec fn view(&self) -> FragmentView {
        FragmentView { tokens: tokens_view(self.tokens@), span: self.span }
    }
}

/// The values of a list of fragments.
pub open spec fn fragments_view(fs: Seq<Fragment>) -> Seq<FragmentView> {
    fs.map_values(|f: Fragment| f@)
}

/// The values of a list of strings.
pub open spec fn strings_view(ss: Seq<String>) -> Seq<Seq<char>> {
    ss.map_values(|s: String| s@)
}

/// A message for the user, with the place it is about.
pub struct Diagnostic {
    pub span: usize,
    pub message: String,
}

/// The mathematical value of a [`Diagnostic`].
pub struct DiagnosticView {
    pub span: usize,
    pub message: Seq<char>,
}

impl View for Diagnostic {
    type V = DiagnosticView;

    open spec fn view(&self) -> DiagnosticView {
        DiagnosticView { span: self.span, message: self.message@ }
    }
}

/// The value of a result that carries generated text or a diagnostic.
pub open spec fn code_result_view(r: Result<String, Diagnostic>) -> Result<
    Seq<char>,
    DiagnosticView,
> {
    match r {
        Ok(s) => Ok(s@),
        Err(d) => Err(d@),
    }
}

/// What one token contributes to the written text.
pub open spec fn token_text(t: TokenView) -> Seq<char> {
    if t.glued {
        t.text
    } else {
        t.text + seq![' ']
    }
}

/// The text of a run of tokens: each token, followed by one space unless it
/// is glued to its successor.
pub open spec fn render(ts: Seq<TokenView>) -> Seq<char>
    decreases ts.len(),
{
    if ts.len() == 0 {
        Seq::empty()
    } else {
        render(ts.drop_last()) + token_text(ts.last())
    }
}

/// `ts` with every token whose text is `target` replaced by the run `by`.
pub open spec fn replaced(ts: Seq<TokenView>, target: Seq<char>, by: Seq<TokenView>) -> Seq<
    TokenView,
>
    decreases ts.len(),
{
    if ts.len() == 0 {
        Seq::empty()
    } else if ts.last().text == target {
        replaced(ts.drop_last(), target, by) + by
    } else {
        replaced(ts.drop_last(), target, by).push(ts.last())
    }
}

/// The character that writes the digit `d`.
pub open spec fn digit_char(d: int) -> char {
    if d == 0 {
        '0'
    } else if d == 1 {
        '1'
    } else if d == 2 {
        '2'
    } else if d == 3 {
        '3'
    } else if d == 4 {
        '4'
    } else if d == 5 {
        '5'
    } else if d == 6 {
        '6'
    } else if d == 7 {
        '7'
    } else if d == 8 {
        '8'
    } else {
        '9'
    }
}

/// `n` written in decimal, without leading zeros.
pub open spec fn decimal(n: nat) -> Seq<char>
    decreases n,
{
    if n < 10 {
        seq![digit_char(n as int)]
    } else {
        decimal(n / 10).push(digit_char((n % 10) as int))
    }
}

/// An identifier without the `r#` that marks it as raw.
pub open spec fn unraw_spec(s: Seq<char>) -> Seq<char> {
    if s.len() >= 2 && s[0] == 'r' && s[1] == '#' {
        s.skip(2)
    } else {
        s
    }
}

/// `s` without the trailing `suffix`, where it ends with it.
pub open spec fn strip_suffix_spec(s: Seq<char>, suffix: Seq<char>) -> Option<Seq<char>> {
    if s.len() >= suffix.len() && s.skip(s.len() - suffix.len()) == suffix {
        Some(s.take(s.len() - suffix.len()))
    } else {
        None
    }
}

/// Whether `ss` holds `s`.
pub open spec fn holds(ss: Seq<Seq<char>>, s: Seq<char>) -> bool {
    exists|i: int| 0 <= i < ss.len() && ss[i] == s
}

/// Whether two string slices hold the same characters.
pub fn str_eq(a: &str, b: &str) -> (r: bool)
    ensures
        r == (a@ == b@),
{
    let x = a.to_owned();
    let y = b.to_owned();
    x == y
}

/// Builds a token.
pub fn token(text: &str, glued: bool) -> (t: Token)
    ensures
        t@ == (TokenView { text: text@, glued }),
{
    Token { text: text.to_owned(), glued }
}

/// A copy of a token.
pub fn clone_token(t: &Token) -> (r: Token)
    ensures
        r@ == t@,
{
    Token { text: t.text.clone(), glued: t.glued }
}

/// Appends copies of the tokens of `src` to `dst`.
pub fn extend_tokens(dst: &mut Vec<Token>, src: &Vec<Token>)
    ensures
        tokens_view(final(dst)@) == tokens_view(old(dst)@) + tokens_view(src@),
{
    let ghost start = tokens_view(dst@);
    let mut i: usize = 0;
    while i < src.len()
        invariant
            i <= src.len(),
            tokens_view(dst@) == start + tokens_view(src@).take(i as int),
        decreases src.len() - i,
    {
        let t = clone_token(&src[i]);
        let ghost before = tokens_view(dst@);
        dst.push(t);
        assert(tokens_view(dst@) =~= before.push(t@));
        assert(tokens_view(src@).take(i as int + 1) =~= tokens_view(src@).take(i as int).push(
            src@[i as int]@,
        ));
        i = i + 1;
    }
    assert(tokens_view(src@).take(src.len() as int) =~= tokens_view(src@));
}

/// A copy of a run of tokens.
pub fn clone_tokens(src: &Vec<Token>) -> (r: Vec<Token>)
    ensures
        tokens_view(r@) == tokens_view(src@),
{
    let mut r: Vec<Token> = Vec::new();
    assert(tokens_view(r@) =~= Seq::empty());
    extend_tokens(&mut r, src);
    assert(Seq::<TokenView>::empty() + tokens_view(src@) =~= tokens_view(src@));
    r
}

/// A copy of a fragment.
pub fn clone_fragment(f: &Fragment) -> (r: Fragment)
    ensures
        r@ == f@,
{
    Fragment { tokens: clone_tokens(&f.tokens), span: f.span }
}

/// Appends the text of a run of tokens to `out`.
pub fn push_tokens(out: &mut String, ts: &Vec<Token>)
    ensures
        final(out)@ == old(out)@ + render(tokens_view(ts@)),
{
    let ghost start = out@;
    let ghost all = tokens_view(ts@);
    let mut i: usize = 0;
    assert(start + render(all.take(0)) =~= start);
    while i < ts.len()
        invariant
            i <= ts.len(),
            all == tokens_view(ts@),
            out@ == start + render(all.take(i as int)),
        decreases ts.len() - i,
    {
        let ghost before = out@;
        out.append(ts[i].text.as_str());
        if !ts[i].glued {
            out.append(" ");
            proof {
                reveal_strlit(" ");
                assert(" "@ =~= seq![' ']);
            }
        }
        proof {
            let next = all.take(i as int + 1);
            assert(next.drop_last() =~= all.take(i as int));
            assert(next.last() == ts@[i as int]@);
            assert(out@ =~= before + token_text(ts@[i as int]@));
            assert(out@ =~= start + render(next));
        }
        i = i + 1;
    }
    assert(all.take(ts.len() as int) =~= all);
}

/// Appends the text of a fragment to `out`.
pub fn push_fragment(out: &mut String, f: &Fragment)
    ensures
        final(out)@ == old(out)@ + render(f@.tokens),
{
    push_tokens(out, &f.tokens);
}

/// The text of a run of tokens.
pub fn render_tokens(ts: &Vec<Token>) -> (r: String)
    ensures
        r@ == render(tokens_view(ts@)),
{
    let mut out = String::new();
    push_tokens(&mut out, ts);
    assert(Seq::<char>::empty() + render(tokens_view(ts@)) =~= render(tokens_view(ts@)));
    out
}

/// Replaces every token of `input` whose text is `target` by a copy of the
/// run `by`; all other tokens are kept, in order.
pub fn replace_tokens(input: &Vec<Token>, target: &str, by: &Vec<Token>) -> (r: Vec<Token>)
    ensures
        tokens_view(r@) == replaced(tokens_view(input@), target@, tokens_view(by@)),
{
    let ghost all = tokens_view(input@);
    let mut r: Vec<Token> = Vec::new();
    let mut i: usize = 0;
    assert(tokens_view(r@) =~= replaced(all.take(0), target@, tokens_view(by@)));
    while i < input.len()
        invariant
            i <= input.len(),
            all == tokens_view(input@),
            tokens_view(r@) == replaced(all.take(i as int), target@, tokens_view(by@)),
        decreases input.len() - i,
    {
        let ghost before = tokens_view(r@);
        proof {
            let next = all.take(i as int + 1);
            assert(next.drop_last() =~= all.take(i as int));
            assert(next.last() == input@[i as int]@);
        }
        if str_eq(input[i].text.as_str(), target) {
            extend_tokens(&mut r, by);
        } else {
            let t = clone_token(&input[i]);
            r.push(t);
            assert(tokens_view(r@) =~= before.push(t@));
        }
        i = i + 1;
    }
    assert(all.take(input.len() as int) =~= all);
    r
}

/// The one-character string that writes the digit `d`.
fn digit_str(d: usize) -> (r: &'static str)
    requires
        d < 10,
    ensures
        r@ == seq![digit_char(d as int)],
{
    proof {
        reveal_strlit("0");
        reveal_strlit("1");
        reveal_strlit("2");
        reveal_strlit("3");
        reveal_strlit("4");
        reveal_strlit("5");
        reveal_strlit("6");
        reveal_strlit("7");
        reveal_strlit("8");
        reveal_strlit("9");
    }
    let r = if d == 0 {
        "0"
    } else if d == 1 {
        "1"
    } else if d == 2 {
        "2"
    } else if d == 3 {
        "3"
    } else if d == 4 {
        "4"
    } else if d == 5 {
        "5"
    } else if d == 6 {
        "6"
    } else if d == 7 {
        "7"
    } else if d == 8 {
        "8"
    } else {
        "9"
    };
    assert(r@ =~= seq![digit_char(d as int)]);
    r
}

/// Writes `n` in decimal.
pub fn decimal_string(n: usize) -> (r: String)
    ensures
        r@ == decimal(n as nat),
    decreases n,
{
    if n < 10 {
        digit_str(n).to_owned()
    } else {
        let mut s = decimal_string(n / 10);
        let d = digit_str(n % 10);
        s.append(d);
        assert(s@ =~= decimal((n / 10) as nat).push(digit_char((n % 10) as int)));
        s
    }
}

/// Removes the `r#` of a raw identifier; any other text is returned as it is.
pub fn unraw(ident: &str) -> (r: String)
    ensures
        r@ == unraw_spec(ident@),
{
    let n = ident.unicode_len();
    if n >= 2 && ident.get_char(0) == 'r' && ident.get_char(1) == '#' {
        let rest = ident.substring_char(2, n);
        assert(ident@.subrange(2, n as int) =~= ident@.skip(2));
        rest.to_owned()
    } else {
        ident.to_owned()
    }
}

/// Splits a trailing `suffix` off `s`: the part before it, or `None` where
/// `s` does not end with `suffix`.
pub fn strip_suffix(s: &str, suffix: &str) -> (r: Option<String>)
    ensures
        match r {
            Some(head) => strip_suffix_spec(s@, suffix@) == Some(head@),
            None => strip_suffix_spec(s@, suffix@) is None,
        },
{
    let n = s.unicode_len();
    let k = suffix.unicode_len();
    if n < k {
        return None;
    }
    let tail = s.substring_char(n - k, n);
    assert(s@.subrange(n - k, n as int) =~= s@.skip(n - k));
    if str_eq(tail, suffix) {
        let head = s.substring_char(0, n - k);
        assert(s@.subrange(0, n - k) =~= s@.take(n - k));
        Some(head.to_owned())
    } else {
        None
    }
}

/// Whether the list `names` holds the string `name`.
pub fn contains_str(names: &Vec<String>, name: &str) -> (r: bool)
    ensures
        r == holds(strings_view(names@), name@),
{
    let mut i: usize = 0;
    while i < names.len()
        invariant
            i <= names.len(),
            forall|j: int| 0 <= j < i ==> names@[j]@ != name@,
        decreases names.len() - i,
    {
        if str_eq(names[i].as_str(), name) {
            assert(strings_view(names@)[i as int] == name@);
            return true;
        }
        i = i + 1;
    }
    assert forall|j: int| 0 <= j < strings_view(names@).len() implies strings_view(names@)[j]
        != name@ by {
        assert(strings_view(names@)[j] == names@[j]@);
    }
    false
}

} // verus!

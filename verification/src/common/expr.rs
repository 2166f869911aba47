//! GitHub Actions expressions: recognising and normalising their delimiters.

use crate::decode::{Decode, DecodeError, Failure, Shape};
use crate::text::{
    all_spaces, chars_of, cut, ends_with, is_tight, lemma_trim_bounds, lemma_trim_idempotent,
    lemma_trim_padded, starts_with, trim, trim_bounds,
};
use crate::value::{Tree, Value};
use vstd::prelude::*;

verus! {

/// The delimiter that opens a curly expression: `${{`.
pub open spec fn opener() -> Seq<char> {
    seq!['$', '{', '{']
}

/// The delimiter that closes a curly expression: `}}`.
pub open spec fn closer() -> Seq<char> {
    seq!['}', '}']
}

/// Whether `s`, apart from surrounding whitespace, is fenced by `${{` and `}}`.
pub open spec fn is_curly(s: Seq<char>) -> bool {
    opener().is_prefix_of(trim(s)) && closer().is_suffix_of(trim(s))
}

/// The curly form of an expression whose text is `s`: the trimmed text where
/// that is fenced already, else the trimmed text fenced as `${{ text }}`.
pub open spec fn curly_form(s: Seq<char>) -> Seq<char> {
    if is_curly(s) {
        trim(s)
    } else {
        opener() + seq![' '] + trim(s) + seq![' '] + closer()
    }
}

/// The bare form of an expression whose text is `s`: what stands between the
/// delimiters of its curly form, trimmed.
pub open spec fn bare_form(s: Seq<char>) -> Seq<char> {
    let c = curly_form(s);
    trim(c.subrange(3, c.len() - 2))
}

/// `s` is `bare` fenced by the two delimiters, with nothing but whitespace
/// around the whole and between the delimiters and `bare`, and `bare` itself
/// has no whitespace at either end.
pub open spec fn is_framed(s: Seq<char>, bare: Seq<char>) -> bool {
    exists|a: Seq<char>, b: Seq<char>, c: Seq<char>, d: Seq<char>|
        frames(s, bare, a, b, c, d)
}

/// `s` is `a ${{ b bare c }} d` for whitespace `a`, `b`, `c`, `d` and a
/// `bare` without whitespace at either end.
pub open spec fn frames(
    s: Seq<char>,
    bare: Seq<char>,
    a: Seq<char>,
    b: Seq<char>,
    c: Seq<char>,
    d: Seq<char>,
) -> bool {
    &&& all_spaces(a)
    &&& all_spaces(b)
    &&& all_spaces(c)
    &&& all_spaces(d)
    &&& is_tight(bare)
    &&& s == a + opener() + b + bare + c + closer() + d
}

/// An explicit GitHub Actions expression.
///
/// The text is kept as it was given. It is either fenced by `${{` and `}}`
/// (made by [`ExplicitExpr::from_curly`]) or not (made by
/// [`ExplicitExpr::from_bare`]); the curly and bare forms are computed from it.
#[derive(Debug, PartialEq)]
pub struct ExplicitExpr(String);

impl View for ExplicitExpr {
    type V = Seq<char>;

    closed spec fn view(&self) -> Seq<char> {
        self.0@
    }
}

impl DeepView for ExplicitExpr {
    type V = Seq<char>;

    open spec fn deep_view(&self) -> Seq<char> {
        self@
    }
}

/// A curly text is at least as long as its two delimiters, and the part
/// between them is what is left of the trimmed text.
pub proof fn lemma_curly_shape(s: Seq<char>)
    requires
        is_curly(s),
    ensures
        trim(s).len() >= 5,
        trim(s) == opener() + trim(s).subrange(3, trim(s).len() - 2) + closer(),
{
    let t = trim(s);
}

/// A text fenced as `${{`, whitespace, `t`, whitespace, `}}` is curly and
/// is its own trim; between its delimiters stand the whitespace and `t`.
proof fn lemma_fenced(t: Seq<char>, b: Seq<char>, c: Seq<char>)
    requires
        all_spaces(b),
        all_spaces(c),
    ensures
        is_tight(opener() + b + t + c + closer()),
        trim(opener() + b + t + c + closer()) == opener() + b + t + c + closer(),
        is_curly(opener() + b + t + c + closer()),
        (opener() + b + t + c + closer()).subrange(
            3,
            (opener() + b + t + c + closer()).len() - 2,
        ) == b + t + c,
{
    let f = opener() + b + t + c + closer();
    lemma_trim_padded(Seq::<char>::empty(), f, Seq::<char>::empty());
}

/// The bare form of a text that is not curly is the trimmed text.
pub proof fn lemma_bare_of_plain(s: Seq<char>)
    requires
        !is_curly(s),
    ensures
        bare_form(s) == trim(s),
{
    let t = trim(s);
    let sp = seq![' '];
    lemma_fenced(t, sp, sp);
    lemma_trim_bounds(s);
    lemma_trim_padded(sp, t, sp);
}

/// A framed text is curly, and what it frames is its bare form.
proof fn lemma_framed_is_curly(
    s: Seq<char>,
    bare: Seq<char>,
    a: Seq<char>,
    b: Seq<char>,
    c: Seq<char>,
    d: Seq<char>,
)
    requires
        frames(s, bare, a, b, c, d),
    ensures
        is_curly(s),
        bare == bare_form(s),
{
    let f = opener() + b + bare + c + closer();
    lemma_fenced(bare, b, c);
    lemma_regroup(a, opener(), b, bare, c, closer(), d);
    lemma_trim_padded(a, f, d);
    lemma_trim_padded(b, bare, c);
}

/// Concatenation may be regrouped.
proof fn lemma_regroup(
    a: Seq<char>,
    o: Seq<char>,
    b: Seq<char>,
    x: Seq<char>,
    c: Seq<char>,
    k: Seq<char>,
    d: Seq<char>,
)
    ensures
        a + (o + (b + x + c) + k) + d == a + o + b + x + c + k + d,
        o + b + x + c + k == o + (b + x + c) + k,
{
}

/// A curly text frames its bare form.
proof fn lemma_curly_is_framed(s: Seq<char>)
    requires
        is_curly(s),
    ensures
        is_framed(s, bare_form(s)),
{
    let bounds = lemma_trim_bounds(s);
    let t = trim(s);
    let a = s.subrange(0, bounds.0);
    let d = s.subrange(bounds.1, s.len() as int);
    lemma_curly_shape(s);
    let inner = t.subrange(3, t.len() - 2);
    let ib = lemma_trim_bounds(inner);
    let bare = trim(inner);
    let b = inner.subrange(0, ib.0);
    let c = inner.subrange(ib.1, inner.len() as int);
    lemma_regroup(a, opener(), b, bare, c, closer(), d);
    assert(frames(s, bare, a, b, c, d));
}

/// What `as_bare` gives for a curly text is exactly what stands inside the
/// delimiters without the whitespace next to them: the text is whitespace,
/// `${{`, whitespace, the bare form, whitespace, `}}`, whitespace, and the
/// bare form is the only text of which that can be said.
pub proof fn lemma_bare_is_interior(s: Seq<char>, bare: Seq<char>)
    ensures
        is_framed(s, bare) <==> is_curly(s) && bare == bare_form(s),
{
    if is_framed(s, bare) {
        let (a, b, c, d) = choose|a: Seq<char>, b: Seq<char>, c: Seq<char>, d: Seq<char>|
            frames(s, bare, a, b, c, d);
        lemma_framed_is_curly(s, bare, a, b, c, d);
    }
    if is_curly(s) && bare == bare_form(s) {
        lemma_curly_is_framed(s);
    }
}

/// Taking the curly form changes nothing that is observed of an expression:
/// the curly form of any text is itself curly, is its own curly form, and has
/// the bare form of the text it came from.
pub proof fn lemma_curly_round_trip(s: Seq<char>)
    ensures
        is_curly(curly_form(s)),
        curly_form(curly_form(s)) == curly_form(s),
        bare_form(curly_form(s)) == bare_form(s),
{
    if is_curly(s) {
        lemma_trim_idempotent(s);
    } else {
        let sp = seq![' '];
        lemma_fenced(trim(s), sp, sp);
    }
}

/// Where the trimmed text of `v` lies, and whether it is fenced by the two
/// delimiters.
fn scan(v: &Vec<char>) -> (r: (bool, usize, usize))
    ensures
        r.0 == is_curly(v@),
        r.1 <= r.2 <= v.len(),
        v@.subrange(r.1 as int, r.2 as int) == trim(v@),
{
    let (a, b) = trim_bounds(v, 0, v.len());
    assert(v@.subrange(0, v.len() as int) =~= v@);
    let open = chars_of("${{");
    let close = chars_of("}}");
    proof {
        reveal_strlit("${{");
        reveal_strlit("}}");
    }
    let curly = starts_with(v, a, b, &open) && ends_with(v, a, b, &close);
    (curly, a, b)
}

impl ExplicitExpr {
    /// Makes an expression of a text that, apart from surrounding whitespace,
    /// is fenced by `${{` and `}}`. The text is kept as given.
    pub fn from_curly(expr: &str) -> (r: Option<Self>)
        ensures
            r is Some <==> is_curly(expr@),
            r matches Some(e) ==> e@ == expr@,
    {
        let v = chars_of(expr);
        let (curly, _, _) = scan(&v);
        if curly {
            Some(ExplicitExpr(expr.to_owned()))
        } else {
            None
        }
    }

    /// Makes an expression of a text that is not fenced by `${{` and `}}`,
    /// for the places where an expression is written without them. The text
    /// is kept as given.
    pub fn from_bare(expr: &str) -> (r: Option<Self>)
        ensures
            r is Some <==> !is_curly(expr@),
            r matches Some(e) ==> e@ == expr@,
    {
        let v = chars_of(expr);
        let (curly, _, _) = scan(&v);
        if curly {
            None
        } else {
            Some(ExplicitExpr(expr.to_owned()))
        }
    }

    /// The text this expression was made of, whitespace and delimiters
    /// included.
    pub fn as_raw(&self) -> (r: &str)
        ensures
            r@ == self@,
    {
        self.0.as_str()
    }

    /// The curly form: the text without surrounding whitespace, fenced by
    /// `${{ ` and ` }}` unless it is fenced already. Whitespace inside the
    /// text is kept.
    pub fn as_curly(&self) -> (r: String)
        ensures
            r@ == curly_form(self@),
    {
        let raw = self.0.as_str();
        let v = chars_of(raw);
        let (curly, a, b) = scan(&v);
        if curly {
            cut(raw, a, b)
        } else {
            proof {
                reveal_strlit("${{ ");
                reveal_strlit(" }}");
            }
            let mut out = "${{ ".to_owned();
            out.append(raw.substring_char(a, b));
            out.append(" }}");
            out
        }
    }

    /// The bare form: what stands between the delimiters of the curly form,
    /// without surrounding whitespace.
    pub fn as_bare(&self) -> (r: &str)
        ensures
            r@ == bare_form(self@),
    {
        let raw = self.0.as_str();
        let v = chars_of(raw);
        let (curly, a, b) = scan(&v);
        if curly {
            proof {
                lemma_curly_shape(self@);
            }
            let (c, d) = trim_bounds(&v, a + 3, b - 2);
            assert(v@.subrange(a + 3, b - 2) =~= trim(v@).subrange(3, trim(v@).len() - 2));
            raw.substring_char(c, d)
        } else {
            proof {
                lemma_bare_of_plain(self@);
            }
            raw.substring_char(a, b)
        }
    }
}

impl Decode for ExplicitExpr {
    /// An expression decodes from a string that is fenced by `${{` and
    /// `}}`, and holds that string as written.
    open spec fn decoded(tree: Tree) -> Result<Seq<char>, Failure> {
        match tree {
            Tree::String(text) => if is_curly(text) {
                Ok(text)
            } else {
                Err(Failure::InvalidExpression)
            },
            _ => Err(Failure::Expected(Shape::String)),
        }
    }

    fn decode(value: &Value) -> (r: Result<Self, DecodeError>) {
        match value {
            Value::String(text) => match ExplicitExpr::from_curly(text.as_str()) {
                Some(expr) => Ok(expr),
                None => Err(DecodeError::InvalidExpression),
            },
            _ => Err(DecodeError::Expected(Shape::String)),
        }
    }
}

/// A value that is written either as a literal or as an expression.
#[derive(Debug, PartialEq)]
pub enum LoE<T> {
    /// An expression, to be evaluated later.
    Expr(ExplicitExpr),
    /// A literal value.
    Literal(T),
}

/// What a [`LoE`] holds.
pub enum LoEView<V> {
    Expr(Seq<char>),
    Literal(V),
}

impl<T: DeepView> DeepView for LoE<T> {
    type V = LoEView<T::V>;

    open spec fn deep_view(&self) -> LoEView<T::V> {
        match self {
            LoE::Expr(e) => LoEView::Expr(e@),
            LoE::Literal(v) => LoEView::Literal(v.deep_view()),
        }
    }
}

impl<T: Decode> Decode for LoE<T> {
    /// The expression is tried first: a string that is fenced by `${{` and
    /// `}}` is an expression, whatever a literal could have made of it. Any
    /// other tree is the literal, where it decodes as one; else it is neither.
    open spec fn decoded(tree: Tree) -> Result<LoEView<T::V>, Failure> {
        match ExplicitExpr::decoded(tree) {
            Ok(text) => Ok(LoEView::Expr(text)),
            Err(_) => match T::decoded(tree) {
                Ok(v) => Ok(LoEView::Literal(v)),
                Err(_) => Err(Failure::ExpectedEither(Shape::Expression, Shape::Literal)),
            },
        }
    }

    fn decode(value: &Value) -> (r: Result<Self, DecodeError>) {
        match ExplicitExpr::decode(value) {
            Ok(expr) => Ok(LoE::Expr(expr)),
            Err(_) => match T::decode(value) {
                Ok(v) => Ok(LoE::Literal(v)),
                Err(_) => Err(DecodeError::ExpectedEither(Shape::Expression, Shape::Literal)),
            },
        }
    }
}

/// Where a string may stand for a literal, it is the expression that is
/// read in a string fenced by `${{` and `}}`, and the literal in any other
/// string, which is then held unchanged: the literal never fails.
pub proof fn lemma_string_or_expr(text: Seq<char>)
    ensures
        LoE::<String>::decoded(Tree::String(text)) == Ok::<LoEView<Seq<char>>, Failure>(
            if is_curly(text) {
                LoEView::Expr(text)
            } else {
                LoEView::Literal(text)
            },
        ),
{
}

impl<T> LoE<T> {
    /// Picks between the two attempts at one value, for a literal that is
    /// decoded elsewhere. The expression is preferred, whatever the literal
    /// attempt gave; without an expression the literal stands; without both
    /// the value is neither.
    pub fn from_attempts(expr: Option<ExplicitExpr>, literal: Option<T>) -> (r: Result<
        Self,
        DecodeError,
    >)
        ensures
            r == match (expr, literal) {
                (Some(e), _) => Ok::<Self, DecodeError>(LoE::Expr(e)),
                (None, Some(v)) => Ok(LoE::Literal(v)),
                (None, None) => Err(
                    DecodeError::ExpectedEither(Shape::Expression, Shape::Literal),
                ),
            },
    {
        match expr {
            Some(e) => Ok(LoE::Expr(e)),
            None => match literal {
                Some(v) => Ok(LoE::Literal(v)),
                None => Err(DecodeError::ExpectedEither(Shape::Expression, Shape::Literal)),
            },
        }
    }
}

impl<T: Default> Default for LoE<T> {
    /// The literal that is the default of `T`.
    fn default() -> (r: Self)
        ensures
            r matches LoE::Literal(v) && call_ensures(T::default, (), v),
    {
        LoE::Literal(T::default())
    }
}

/// A `bool` literal or an expression.
pub type BoE = LoE<bool>;

} // verus!

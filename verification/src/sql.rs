//! The statement builder and the row/column values that query responses
//! decode into.
//!
//! A [`Statement`] is a SQL template whose `?` placeholders are consumed
//! left to right, one per parameter, by [`Statement::tosql`]. String
//! parameters are wrapped in single quotes with no escaping of embedded
//! quote characters: string values are caller-trusted, a documented
//! limitation of this layer, not a sanitizer.

use vstd::prelude::*;

use crate::error::InvalidSql;

verus! {

/// One decoded cell value.
#[derive(Debug, Clone)]
pub enum ColumnValue {
    String(String),
    Int(i32),
    Blob(Vec<u8>),
}

/// Optional metadata of a decoded cell: the column's name.
#[derive(Debug, Clone)]
pub struct ColumnMeta {
    pub name: String,
}

/// One decoded cell: an optional value and optional metadata. Absent
/// values come from the lenient decode policy, which turns a cell that
/// cannot be extracted into `None` rather than an error.
#[derive(Debug, Clone)]
pub struct Column {
    pub value: Option<ColumnValue>,
    pub meta: Option<ColumnMeta>,
}

/// An ordered sequence of decoded cells.
#[derive(Debug, Clone)]
pub struct Row {
    pub columns: Vec<Column>,
}

/// Walks the values of a row in order; stops for good at the first
/// absent value.
pub struct RowIterator {
    values: Vec<Option<ColumnValue>>,
    index: usize,
}

/// One positional parameter of a statement.
///
/// `Column` is substituted unquoted (a caller-trusted identifier or
/// expression), `StringValue` is wrapped in single quotes, `Int` becomes
/// a bare decimal literal, and `Blob` substitution is unsupported:
/// rendering a statement with a blob parameter fails closed.
#[derive(Debug, Clone)]
pub enum Parameter {
    Column(String),
    StringValue(String),
    Int(i32),
    Blob(Vec<u8>),
}

/// An immutable SQL template plus its optional ordered parameters.
pub struct Statement {
    statement: String,
    params: Option<Vec<Parameter>>,
}

/// How many `?` placeholder markers a template holds.
pub open spec fn placeholder_count(t: Seq<char>) -> nat
    decreases t.len(),
{
    if t.len() == 0 {
        0
    } else {
        (if t[0] == '?' {
            1nat
        } else {
            0nat
        }) + placeholder_count(t.skip(1))
    }
}

/// The character for one decimal digit.
pub open spec fn decimal_digit(d: nat) -> char {
    if d == 0 {
        '0'
    } else if d == 1 {
        '1'
    } else if d == 2 {
        '2'
    } else if d == 3 {
        '3'
    } else if d == 4 {
        '4'
    } else if d == 5 {
        '5'
    } else if d == 6 {
        '6'
    } else if d == 7 {
        '7'
    } else if d == 8 {
        '8'
    } else {
        '9'
    }
}

/// The decimal digit characters of a natural number, most significant
/// first, with no leading zeros (a single `'0'` for zero).
pub open spec fn decimal_nat(n: nat) -> Seq<char>
    decreases n,
{
    if n < 10 {
        seq![decimal_digit(n)]
    } else {
        decimal_nat(n / 10).push(decimal_digit(n % 10))
    }
}

/// The decimal text of a signed integer: a leading `'-'` for a negative
/// value, then the digits of its magnitude.
pub open spec fn decimal_int(n: int) -> Seq<char> {
    if n < 0 {
        seq!['-'] + decimal_nat((-n) as nat)
    } else {
        decimal_nat(n as nat)
    }
}

/// The text one parameter is substituted as. A blob has no text: a
/// template with a blob parameter is rejected before substitution.
pub open spec fn param_text(p: Parameter) -> Seq<char> {
    match p {
        Parameter::Column(s) => s@,
        Parameter::StringValue(s) => seq!['\''] + s@ + seq!['\''],
        Parameter::Int(i) => decimal_int(i as int),
        Parameter::Blob(_) => Seq::empty(),
    }
}

/// The template with each `?` replaced, left to right, by the text of
/// the next parameter in order.
pub open spec fn rendered(t: Seq<char>, ps: Seq<Parameter>) -> Seq<char>
    decreases t.len(),
{
    if t.len() == 0 {
        Seq::empty()
    } else if t[0] == '?' {
        if ps.len() > 0 {
            param_text(ps[0]) + rendered(t.skip(1), ps.skip(1))
        } else {
            rendered(t.skip(1), ps)
        }
    } else {
        seq![t[0]] + rendered(t.skip(1), ps)
    }
}

/// Whether any parameter is a blob.
pub open spec fn has_blob(ps: Seq<Parameter>) -> bool {
    exists|i: int| 0 <= i < ps.len() && ps[i] is Blob
}

/// When rendering succeeds: either no markers and no parameter list, or
/// markers and parameters that pair one to one, none of them a blob.
pub open spec fn render_ok(t: Seq<char>, params: Option<Seq<Parameter>>) -> bool {
    match params {
        None => placeholder_count(t) == 0,
        Some(ps) => placeholder_count(t) > 0 && ps.len() == placeholder_count(t) && !has_blob(ps),
    }
}

/// The parameters substitution runs with: the given ones, or none.
pub open spec fn params_or_empty(params: Option<Seq<Parameter>>) -> Seq<Parameter> {
    match params {
        Some(ps) => ps,
        None => Seq::empty(),
    }
}

/// The message reported when rendering fails; meaningful only when
/// `render_ok` does not hold.
pub open spec fn render_error_text(t: Seq<char>, params: Option<Seq<Parameter>>) -> Seq<char> {
    match params {
        None => "invalid sql with extra placeholder ?"@,
        Some(ps) => if placeholder_count(t) == 0 {
            "invalid sql with extra placeholder parameters"@
        } else if ps.len() != placeholder_count(t) {
            "invalid sql with mismatched placeholder parameters"@
        } else {
            "invalid sql with unsupported blob parameter"@
        },
    }
}

/// A template without markers renders to itself, whatever the
/// parameters: substitution never touches ordinary characters.
pub proof fn lemma_rendered_no_placeholders(t: Seq<char>, ps: Seq<Parameter>)
    requires
        placeholder_count(t) == 0,
    ensures
        rendered(t, ps) == t,
    decreases t.len(),
{
    if t.len() == 0 {
        assert(rendered(t, ps) =~= t);
    } else {
        assert(placeholder_count(t) == (if t[0] == '?' {
            1nat
        } else {
            0nat
        }) + placeholder_count(t.skip(1)));
        assert(t[0] != '?');
        lemma_rendered_no_placeholders(t.skip(1), ps);
        assert(seq![t[0]] + t.skip(1) =~= t);
    }
}

/// Substitution is left to right and order-preserving: the markers of a
/// front part consume exactly its own count of parameters, in order, and
/// the back part consumes the rest.
pub proof fn lemma_rendered_append(t1: Seq<char>, t2: Seq<char>, ps: Seq<Parameter>)
    requires
        ps.len() >= placeholder_count(t1),
    ensures
        rendered(t1 + t2, ps) == rendered(t1, ps.take(placeholder_count(t1) as int)) + rendered(
            t2,
            ps.skip(placeholder_count(t1) as int),
        ),
    decreases t1.len(),
{
    if t1.len() == 0 {
        assert(t1 + t2 =~= t2);
        assert(ps.take(0) =~= Seq::<Parameter>::empty());
        assert(ps.skip(0) =~= ps);
        assert(rendered(t1, ps.take(0)) =~= Seq::<char>::empty());
        assert(Seq::<char>::empty() + rendered(t2, ps) =~= rendered(t2, ps));
    } else {
        let k = placeholder_count(t1) as int;
        assert(placeholder_count(t1) == (if t1[0] == '?' {
            1nat
        } else {
            0nat
        }) + placeholder_count(t1.skip(1)));
        assert((t1 + t2).len() > 0);
        assert((t1 + t2)[0] == t1[0]);
        assert((t1 + t2).skip(1) =~= t1.skip(1) + t2);
        if t1[0] == '?' {
            let k1 = placeholder_count(t1.skip(1)) as int;
            assert(k == k1 + 1);
            lemma_rendered_append(t1.skip(1), t2, ps.skip(1));
            assert(ps.skip(1).take(k1) =~= ps.take(k).skip(1));
            assert(ps.skip(1).skip(k1) =~= ps.skip(k));
            assert(rendered(t1 + t2, ps) == param_text(ps[0]) + rendered(t1.skip(1) + t2, ps.skip(1)));
            assert(rendered(t1.skip(1) + t2, ps.skip(1)) == rendered(t1.skip(1), ps.take(k).skip(1))
                + rendered(t2, ps.skip(k)));
            let front = ps.take(k);
            assert(front.len() == k);
            assert(front[0] == ps[0]);
            assert(rendered(t1, front) == param_text(ps[0]) + rendered(t1.skip(1), front.skip(1)));
            assert(param_text(ps[0]) + (rendered(t1.skip(1), front.skip(1)) + rendered(
                t2,
                ps.skip(k),
            )) =~= (param_text(ps[0]) + rendered(t1.skip(1), front.skip(1))) + rendered(
                t2,
                ps.skip(k),
            ));
        } else {
            lemma_rendered_append(t1.skip(1), t2, ps);
            assert(rendered(t1 + t2, ps) == seq![t1[0]] + rendered(t1.skip(1) + t2, ps));
            assert(rendered(t1.skip(1) + t2, ps) == rendered(t1.skip(1), ps.take(k)) + rendered(
                t2,
                ps.skip(k),
            ));
            assert(rendered(t1, ps.take(k)) == seq![t1[0]] + rendered(t1.skip(1), ps.take(k)));
            assert(seq![t1[0]] + (rendered(t1.skip(1), ps.take(k)) + rendered(t2, ps.skip(k)))
                =~= (seq![t1[0]] + rendered(t1.skip(1), ps.take(k))) + rendered(t2, ps.skip(k)));
        }
    }
}

/// A lone marker renders to exactly the text of its one parameter.
pub proof fn lemma_rendered_single_placeholder(p: Parameter)
    ensures
        rendered(seq!['?'], seq![p]) == param_text(p),
{
    let t = seq!['?'];
    let ps = seq![p];
    assert(t.skip(1) =~= Seq::<char>::empty());
    assert(rendered(t.skip(1), ps.skip(1)) =~= Seq::<char>::empty());
    assert(param_text(p) + Seq::<char>::empty() =~= param_text(p));
}

/// Relies on `String::push`: appends one character at the end.
#[verifier::external_body]
pub(crate) fn push_char(s: &mut String, c: char)
    ensures
        final(s)@ == old(s)@.push(c),
{
    s.push(c);
}

/// The character of one decimal digit.
fn digit_char(d: u32) -> (c: char)
    requires
        d < 10,
    ensures
        c == decimal_digit(d as nat),
{
    if d == 0 {
        '0'
    } else if d == 1 {
        '1'
    } else if d == 2 {
        '2'
    } else if d == 3 {
        '3'
    } else if d == 4 {
        '4'
    } else if d == 5 {
        '5'
    } else if d == 6 {
        '6'
    } else if d == 7 {
        '7'
    } else if d == 8 {
        '8'
    } else {
        '9'
    }
}

/// The decimal text of an unsigned number, appended to `out`.
fn append_decimal_u32(out: &mut String, n: u32)
    ensures
        final(out)@ == old(out)@ + decimal_nat(n as nat),
    decreases n,
{
    if n < 10 {
        push_char(out, digit_char(n));
        proof {
            assert(old(out)@.push(decimal_digit(n as nat)) =~= old(out)@ + decimal_nat(n as nat));
        }
    } else {
        append_decimal_u32(out, n / 10);
        push_char(out, digit_char(n % 10));
        proof {
            assert((old(out)@ + decimal_nat((n / 10) as nat)).push(decimal_digit((n % 10) as nat))
                =~= old(out)@ + decimal_nat((n / 10) as nat).push(decimal_digit((n % 10) as nat)));
        }
    }
}

/// The decimal text of a signed integer, appended to `out`.
fn append_decimal_i32(out: &mut String, n: i32)
    ensures
        final(out)@ == old(out)@ + decimal_int(n as int),
{
    if n >= 0 {
        append_decimal_u32(out, n as u32);
    } else {
        push_char(out, '-');
        let wide: i64 = -(n as i64);
        assert(0 <= wide < 0x1_0000_0000i64);
        append_decimal_u32(out, wide as u32);
        proof {
            assert(old(out)@.push('-') =~= old(out)@ + seq!['-']);
            assert((old(out)@ + seq!['-']) + decimal_nat((wide as u32) as nat) =~= old(out)@ + (
            seq!['-'] + decimal_nat((-(n as int)) as nat)));
        }
    }
}

/// The substitution text of one parameter, appended to `out`.
fn append_param(out: &mut String, p: &Parameter)
    ensures
        final(out)@ == old(out)@ + param_text(*p),
{
    match p {
        Parameter::Column(s) => {
            out.append(s.as_str());
        },
        Parameter::StringValue(s) => {
            push_char(out, '\'');
            out.append(s.as_str());
            push_char(out, '\'');
            proof {
                assert(((old(out)@.push('\'')) + s@).push('\'') =~= old(out)@ + (seq!['\''] + s@
                    + seq!['\'']));
            }
        },
        Parameter::Int(i) => {
            append_decimal_i32(out, *i);
        },
        Parameter::Blob(_) => {
            proof {
                assert(old(out)@ + Seq::<char>::empty() =~= old(out)@);
            }
        },
    }
}

/// How many `?` markers `t` holds.
fn count_placeholders(t: &str) -> (c: usize)
    ensures
        c == placeholder_count(t@),
{
    let n = t.unicode_len();
    let mut i: usize = 0;
    let mut c: usize = 0;
    proof {
        assert(t@.skip(0) =~= t@);
    }
    while i < n
        invariant
            n == t@.len(),
            i <= n,
            c <= i,
            c + placeholder_count(t@.skip(i as int)) == placeholder_count(t@),
        decreases n - i,
    {
        let ch = t.get_char(i);
        proof {
            assert(t@.skip(i as int).len() > 0);
            assert(t@.skip(i as int)[0] == t@[i as int]);
            assert(t@.skip(i as int).skip(1) =~= t@.skip(i as int + 1));
        }
        if ch == '?' {
            c = c + 1;
        }
        i = i + 1;
    }
    proof {
        assert(t@.skip(n as int) =~= Seq::<char>::empty());
    }
    c
}

/// Whether any parameter is a blob.
fn contains_blob(ps: &Vec<Parameter>) -> (b: bool)
    ensures
        b == has_blob(ps@),
{
    let mut i: usize = 0;
    while i < ps.len()
        invariant
            i <= ps@.len(),
            forall|j: int| 0 <= j < i ==> !(ps@[j] is Blob),
        decreases ps@.len() - i,
    {
        if let Parameter::Blob(_) = &ps[i] {
            return true;
        }
        i = i + 1;
    }
    false
}

impl Statement {
    /// The template's characters.
    pub closed spec fn template(self) -> Seq<char> {
        self.statement@
    }

    /// The parameters, if a list was supplied.
    pub closed spec fn params_view(self) -> Option<Seq<Parameter>> {
        match self.params {
            Some(ps) => Some(ps@),
            None => None,
        }
    }

    /// Packs a template and its optional parameters.
    pub fn new(statement: String, params: Option<Vec<Parameter>>) -> (s: Self)
        ensures
            s.template() == statement@,
            s.params_view() == (match params {
                Some(ps) => Some(ps@),
                None => None::<Seq<Parameter>>,
            }),
    {
        Self { statement, params }
    }

    /// Substitutes the placeholders of the template with the parameters,
    /// left to right and one to one.
    ///
    /// Succeeds exactly when the template and the parameters pair up
    /// (`render_ok`): no markers and no parameter list, or as many
    /// parameters as markers, none of them a blob. Any mismatch is
    /// rejected before substitution; no partially substituted text is
    /// ever returned. String values are quoted but not escaped.
    pub fn tosql(&self) -> (r: Result<String, InvalidSql>)
        ensures
            match r {
                Ok(s) => render_ok(self.template(), self.params_view()) && s@ == rendered(
                    self.template(),
                    params_or_empty(self.params_view()),
                ),
                Err(e) => !render_ok(self.template(), self.params_view()) && e.msg@
                    == render_error_text(self.template(), self.params_view()),
            },
    {
        let t = self.statement.as_str();
        let n = t.unicode_len();
        let k = count_placeholders(t);
        match &self.params {
            None => {
                if k == 0 {
                    proof {
                        lemma_rendered_no_placeholders(t@, Seq::<Parameter>::empty());
                    }
                    Ok(self.statement.clone())
                } else {
                    Err(
                        InvalidSql {
                            msg: String::from_str("invalid sql with extra placeholder ?"),
                        },
                    )
                }
            },
            Some(ps) => {
                if k == 0 {
                    Err(
                        InvalidSql {
                            msg: String::from_str("invalid sql with extra placeholder parameters"),
                        },
                    )
                } else if ps.len() != k {
                    Err(
                        InvalidSql {
                            msg: String::from_str(
                                "invalid sql with mismatched placeholder parameters",
                            ),
                        },
                    )
                } else if contains_blob(ps) {
                    Err(
                        InvalidSql {
                            msg: String::from_str("invalid sql with unsupported blob parameter"),
                        },
                    )
                } else {
                    let mut result = String::new();
                    let mut idx: usize = 0;
                    let mut i: usize = 0;
                    proof {
                        assert(t@.skip(0) =~= t@);
                        assert(ps@.skip(0) =~= ps@);
                        assert(Seq::<char>::empty() + rendered(t@, ps@) =~= rendered(t@, ps@));
                    }
                    while i < n
                        invariant
                            n == t@.len(),
                            i <= n,
                            idx <= ps@.len(),
                            ps@.len() == k,
                            ps@.len() == placeholder_count(t@),
                            idx + placeholder_count(t@.skip(i as int)) == placeholder_count(t@),
                            result@ + rendered(t@.skip(i as int), ps@.skip(idx as int)) == rendered(
                                t@,
                                ps@,
                            ),
                        decreases n - i,
                    {
                        let ghost prev = result@;
                        let ghost rest_t = t@.skip(i as int);
                        let ghost rest_p = ps@.skip(idx as int);
                        let c = t.get_char(i);
                        proof {
                            assert(rest_t.len() > 0);
                            assert(rest_t[0] == t@[i as int]);
                            assert(rest_t.skip(1) =~= t@.skip(i as int + 1));
                            assert(placeholder_count(rest_t) == (if rest_t[0] == '?' {
                                1nat
                            } else {
                                0nat
                            }) + placeholder_count(rest_t.skip(1)));
                        }
                        if c == '?' {
                            assert(idx < ps@.len());
                            proof {
                                assert(rest_p.len() > 0);
                                assert(rest_p[0] == ps@[idx as int]);
                                assert(rest_p.skip(1) =~= ps@.skip(idx as int + 1));
                            }
                            append_param(&mut result, &ps[idx]);
                            idx = idx + 1;
                            proof {
                                assert(rendered(rest_t, rest_p) == param_text(rest_p[0]) + rendered(
                                    rest_t.skip(1),
                                    rest_p.skip(1),
                                ));
                                assert((prev + param_text(rest_p[0])) + rendered(
                                    rest_t.skip(1),
                                    rest_p.skip(1),
                                ) =~= prev + (param_text(rest_p[0]) + rendered(
                                    rest_t.skip(1),
                                    rest_p.skip(1),
                                )));
                            }
                        } else {
                            push_char(&mut result, c);
                            proof {
                                assert(rendered(rest_t, rest_p) == seq![rest_t[0]] + rendered(
                                    rest_t.skip(1),
                                    rest_p,
                                ));
                                assert(prev.push(c) =~= prev + seq![c]);
                                assert((prev + seq![c]) + rendered(rest_t.skip(1), rest_p) =~= prev
                                    + (seq![c] + rendered(rest_t.skip(1), rest_p)));
                            }
                        }
                        i = i + 1;
                    }
                    proof {
                        assert(t@.skip(n as int) =~= Seq::<char>::empty());
                        assert(result@ + Seq::<char>::empty() =~= result@);
                    }
                    Ok(result)
                }
            },
        }
    }
}

/// Whether two cell values are the same, compared by contents.
pub open spec fn same_value(a: ColumnValue, b: ColumnValue) -> bool {
    match (a, b) {
        (ColumnValue::String(x), ColumnValue::String(y)) => x@ == y@,
        (ColumnValue::Int(x), ColumnValue::Int(y)) => x == y,
        (ColumnValue::Blob(x), ColumnValue::Blob(y)) => x@ == y@,
        _ => false,
    }
}

/// Whether two optional cell values are the same, compared by
/// contents.
pub open spec fn same_optional_value(a: Option<ColumnValue>, b: Option<ColumnValue>) -> bool {
    match (a, b) {
        (Some(x), Some(y)) => same_value(x, y),
        (None, None) => true,
        _ => false,
    }
}

/// An equal copy of a byte vector.
fn copy_bytes(b: &Vec<u8>) -> (r: Vec<u8>)
    ensures
        r@ == b@,
{
    let mut r: Vec<u8> = Vec::new();
    let mut i: usize = 0;
    while i < b.len()
        invariant
            i <= b@.len(),
            r@ == b@.take(i as int),
        decreases b@.len() - i,
    {
        r.push(b[i]);
        proof {
            assert(b@.take(i as int).push(b@[i as int]) =~= b@.take(i as int + 1));
        }
        i = i + 1;
    }
    proof {
        assert(b@.take(b@.len() as int) =~= b@);
    }
    r
}

impl ColumnValue {
    /// A copy of the value with the same contents.
    pub fn duplicate(&self) -> (r: ColumnValue)
        ensures
            same_value(r, *self),
    {
        match self {
            ColumnValue::String(s) => ColumnValue::String(s.clone()),
            ColumnValue::Int(i) => ColumnValue::Int(*i),
            ColumnValue::Blob(b) => ColumnValue::Blob(copy_bytes(b)),
        }
    }
}

impl Row {
    /// The row's values in column order, packed for walking — the
    /// stand-in for iterating the row directly.
    pub fn into_values(self) -> (it: RowIterator)
        ensures
            it.pos() == 0,
            it.vals().len() == self.columns@.len(),
            forall|i: int|
                0 <= i < self.columns@.len() ==> same_optional_value(
                    #[trigger] it.vals()[i],
                    self.columns@[i].value,
                ),
    {
        let mut values: Vec<Option<ColumnValue>> = Vec::new();
        let mut i: usize = 0;
        while i < self.columns.len()
            invariant
                i <= self.columns@.len(),
                values@.len() == i,
                forall|j: int|
                    0 <= j < i ==> same_optional_value(
                        #[trigger] values@[j],
                        self.columns@[j].value,
                    ),
            decreases self.columns@.len() - i,
        {
            let value = match &self.columns[i].value {
                Some(v) => Some(v.duplicate()),
                None => None,
            };
            values.push(value);
            i = i + 1;
        }
        RowIterator::new(values)
    }
}

impl RowIterator {
    /// The row's optional values.
    pub closed spec fn vals(self) -> Seq<Option<ColumnValue>> {
        self.values@
    }

    /// How many values the walk has passed.
    pub closed spec fn pos(self) -> nat {
        self.index as nat
    }

    /// Packs the optional values of one row, positioned at the start.
    pub fn new(values: Vec<Option<ColumnValue>>) -> (it: Self)
        ensures
            it.vals() == values@,
            it.pos() == 0,
    {
        Self { values, index: 0 }
    }

    /// The next present value, advancing past it; an absent value or the
    /// end of the row stops the walk for good.
    pub fn next(&mut self) -> (r: Option<ColumnValue>)
        ensures
            match r {
                Some(_) => old(self).pos() < old(self).vals().len() && (old(self).vals()[old(
                    self,
                ).pos() as int] matches Some(v) && same_value(r->0, v)) && final(self).pos()
                    == old(self).pos() + 1,
                None => (old(self).pos() >= old(self).vals().len() || old(self).vals()[old(
                    self,
                ).pos() as int] is None) && final(self).pos() == old(self).pos(),
            },
            final(self).vals() == old(self).vals(),
    {
        if self.index < self.values.len() {
            match &self.values[self.index] {
                Some(value) => {
                    let out = value.duplicate();
                    self.index = self.index + 1;
                    Some(out)
                },
                None => None,
            }
        } else {
            None
        }
    }
}

} // verus!

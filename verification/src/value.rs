use vstd::prelude::*;

verus! {

/// A dynamic scalar produced by schema-less decoding of one raw column value.
///
/// `Float` carries the 64-bit IEEE-754 bit pattern of the value; the host
/// boundary converts between the bit pattern and its native number type.
#[derive(Debug, PartialEq)]
pub enum DynamicValue {
    Integer(i64),
    Float(u64),
    Text(String),
    Null,
}

/// The mathematical form of a [`DynamicValue`].
pub enum DynView {
    Integer(i64),
    Float(u64),
    Text(Seq<char>),
    Null,
}

impl View for DynamicValue {
    type V = DynView;

    open spec fn view(&self) -> DynView {
        match self {
            DynamicValue::Integer(n) => DynView::Integer(*n),
            DynamicValue::Float(b) => DynView::Float(*b),
            DynamicValue::Text(s) => DynView::Text(s@),
            DynamicValue::Null => DynView::Null,
        }
    }
}

impl DeepView for DynamicValue {
    type V = DynView;

    open spec fn deep_view(&self) -> DynView {
        self.view()
    }
}

/// The outcome of the three schema-less probes of one raw column value, in
/// the cascade's priority order.
///
/// `integer` is the nullable signed-integer probe: `Some(None)` means the
/// column holds SQL NULL, `Some(Some(n))` an integer. `float_bits` is the
/// floating-point probe, carrying the 64-bit IEEE-754 bit pattern on success.
/// `text` is the text probe. A probe that failed to decode is `None`.
#[derive(Debug, PartialEq)]
pub struct RawColumn {
    pub name: String,
    pub integer: Option<Option<i64>>,
    pub float_bits: Option<u64>,
    pub text: Option<String>,
}

/// The mathematical form of a [`RawColumn`].
pub struct ColView {
    pub name: Seq<char>,
    pub integer: Option<Option<i64>>,
    pub float_bits: Option<u64>,
    pub text: Option<Seq<char>>,
}

impl View for RawColumn {
    type V = ColView;

    open spec fn view(&self) -> ColView {
        ColView {
            name: self.name@,
            integer: self.integer,
            float_bits: self.float_bits,
            text: match self.text {
                Some(s) => Some(s@),
                None => None,
            },
        }
    }
}

impl DeepView for RawColumn {
    type V = ColView;

    open spec fn deep_view(&self) -> ColView {
        self.view()
    }
}

/// What the decode cascade yields for one raw column value: the first probe
/// to succeed wins, in the fixed order integer (which also captures SQL
/// NULL), then floating point, then text; a value none of the probes can
/// represent falls back to `Null`.
pub open spec fn coerce_spec(c: ColView) -> DynView {
    match c.integer {
        Some(Some(n)) => DynView::Integer(n),
        Some(None) => DynView::Null,
        None => match c.float_bits {
            Some(b) => DynView::Float(b),
            None => match c.text {
                Some(s) => DynView::Text(s),
                None => DynView::Null,
            },
        },
    }
}

/// Converts one raw column value into a dynamic scalar, per the fixed-order
/// decode cascade.
pub fn coerce(c: &RawColumn) -> (v: DynamicValue)
    ensures
        v@ == coerce_spec(c@),
{
    match &c.integer {
        Some(inner) => match inner {
            Some(n) => DynamicValue::Integer(*n),
            None => DynamicValue::Null,
        },
        None => match &c.float_bits {
            Some(b) => DynamicValue::Float(*b),
            None => match &c.text {
                Some(s) => DynamicValue::Text(s.clone()),
                None => DynamicValue::Null,
            },
        },
    }
}

/// A column holding SQL NULL decodes to `Null`, whatever the column's
/// declared type and whatever the other probes would have yielded.
pub proof fn lemma_null_decodes_to_null(c: ColView)
    requires
        c.integer == Some(Option::<i64>::None),
    ensures
        coerce_spec(c) == DynView::Null,
{
}

} // verus!

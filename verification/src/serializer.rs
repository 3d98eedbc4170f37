//! Turning a configuration value into the ordered argument tokens of a command line.
//!
//! A configuration value describes itself as a list of [`Field`]s in the order in which
//! its type declares them. The [`Serializer`] walks that list once and writes, for each
//! field, the tokens that the field's value and the boolean rendering call for.

use crate::error::Error;
use crate::render::{decimal, number_option, state_word, state_word_option, text_option};
use vstd::prelude::*;
use vstd::string::StringExecFns;

verus! {

/// How a boolean field is written.
#[derive(Debug, Clone, Copy, PartialEq, Eq, Structural)]
pub enum BooleanType {
    /// The flag's name followed by `on` or `off`.
    OnOff,
    /// The flag's name alone where the flag holds, nothing where it does not.
    Presence,
}

/// What a field of a configuration value holds.
#[derive(Debug, Clone, PartialEq, Eq)]
pub enum FieldValue {
    /// An optional field that is not set.
    Absent,
    /// A text.
    Text(String),
    /// An unsigned number.
    Number(u64),
    /// A truth value. A negated flag is named after what holds when the value is false.
    Flag { value: bool, negated: bool },
    /// The fixed tokens of one variant of an enumerated value, or of a collection of
    /// flags. With `keyword` the field's name leads them.
    Enumerated { tokens: Vec<String>, keyword: bool },
    /// A variant for which the enumerated value's encoding declares no tokens.
    Unrepresentable,
}

/// One named field of a configuration value.
#[derive(Debug, Clone, PartialEq, Eq)]
pub struct Field {
    /// The name under which the command knows the field.
    pub name: String,
    /// What the field holds.
    pub value: FieldValue,
    /// False for a field that is kept out of the command line whatever it holds.
    pub serialized: bool,
}

/// The mathematical content of a [`FieldValue`].
pub enum FieldValueView {
    Absent,
    Text(Seq<char>),
    Number(nat),
    Flag { value: bool, negated: bool },
    Enumerated { tokens: Seq<Seq<char>>, keyword: bool },
    Unrepresentable,
}

/// The mathematical content of a [`Field`].
pub struct FieldView {
    pub name: Seq<char>,
    pub value: FieldValueView,
    pub serialized: bool,
}

impl DeepView for FieldValue {
    type V = FieldValueView;

    open spec fn deep_view(&self) -> FieldValueView {
        match *self {
            FieldValue::Absent => FieldValueView::Absent,
            FieldValue::Text(text) => FieldValueView::Text(text@),
            FieldValue::Number(number) => FieldValueView::Number(number as nat),
            FieldValue::Flag { value, negated } => FieldValueView::Flag { value, negated },
            FieldValue::Enumerated { tokens, keyword } => FieldValueView::Enumerated {
                tokens: tokens.deep_view(),
                keyword,
            },
            FieldValue::Unrepresentable => FieldValueView::Unrepresentable,
        }
    }
}

impl DeepView for Field {
    type V = FieldView;

    open spec fn deep_view(&self) -> FieldView {
        FieldView {
            name: self.name@,
            value: self.value.deep_view(),
            serialized: self.serialized,
        }
    }
}

impl FieldView {
    /// A field that always holds a text.
    pub open spec fn text(name: Seq<char>, value: Seq<char>) -> FieldView {
        FieldView { name, value: FieldValueView::Text(value), serialized: true }
    }

    /// A field that holds a text where it is set.
    pub open spec fn optional_text(name: Seq<char>, value: Option<String>) -> FieldView {
        FieldView {
            name,
            value: match value {
                Some(text) => FieldValueView::Text(text@),
                None => FieldValueView::Absent,
            },
            serialized: true,
        }
    }

    /// A field that holds a number where it is set.
    pub open spec fn optional_number(name: Seq<char>, value: Option<u32>) -> FieldView {
        FieldView {
            name,
            value: match value {
                Some(number) => FieldValueView::Number(number as nat),
                None => FieldValueView::Absent,
            },
            serialized: true,
        }
    }

    /// A field that holds a truth value where it is set.
    pub open spec fn optional_flag(name: Seq<char>, value: Option<bool>) -> FieldView {
        FieldView {
            name,
            value: match value {
                Some(value) => FieldValueView::Flag { value, negated: false },
                None => FieldValueView::Absent,
            },
            serialized: true,
        }
    }

    /// A field that holds the tokens of an enumerated value where it is set. The
    /// field's name is not written.
    pub open spec fn optional_enumerated(
        name: Seq<char>,
        tokens: Option<Seq<Seq<char>>>,
    ) -> FieldView {
        FieldView {
            name,
            value: match tokens {
                Some(tokens) => FieldValueView::Enumerated { tokens, keyword: false },
                None => FieldValueView::Absent,
            },
            serialized: true,
        }
    }

    /// A field that always holds an enumerated value, some of whose variants may have
    /// no encoding. The field's name is not written.
    pub open spec fn encoded(name: Seq<char>, encoding: Option<Seq<Seq<char>>>) -> FieldView {
        FieldView {
            name,
            value: match encoding {
                Some(tokens) => FieldValueView::Enumerated { tokens, keyword: false },
                None => FieldValueView::Unrepresentable,
            },
            serialized: true,
        }
    }

    /// The same field, kept out of the command line.
    pub open spec fn skipped(self) -> FieldView {
        FieldView { name: self.name, value: self.value, serialized: false }
    }

    /// Whether the field is left out of the command line: it is kept out of it by its
    /// declaration, or it is optional and not set.
    pub open spec fn absent(self) -> bool {
        !self.serialized || self.value is Absent
    }

    /// Whether the field has to be written and holds a variant without an encoding.
    pub open spec fn unrepresentable(self) -> bool {
        self.serialized && self.value is Unrepresentable
    }

    /// The tokens that the field contributes to the command line.
    pub open spec fn tokens(self, boolean_type: BooleanType) -> Seq<Seq<char>> {
        if !self.serialized {
            Seq::empty()
        } else {
            match self.value {
                FieldValueView::Absent => Seq::empty(),
                FieldValueView::Text(text) => seq![self.name, text],
                FieldValueView::Number(number) => seq![self.name, decimal(number)],
                FieldValueView::Flag { value, negated } => match boolean_type {
                    BooleanType::OnOff => seq![self.name, state_word(value)],
                    BooleanType::Presence => if value != negated {
                        seq![self.name]
                    } else {
                        Seq::empty()
                    },
                },
                FieldValueView::Enumerated { tokens, keyword } => if tokens.len() == 0 {
                    Seq::empty()
                } else if keyword {
                    seq![self.name] + tokens
                } else {
                    tokens
                },
                FieldValueView::Unrepresentable => Seq::empty(),
            }
        }
    }
}

/// The tokens of all the fields, each field's tokens after those of the fields before it.
pub open spec fn tokens_of(boolean_type: BooleanType, fields: Seq<FieldView>) -> Seq<Seq<char>>
    decreases fields.len(),
{
    if fields.len() == 0 {
        Seq::empty()
    } else {
        tokens_of(boolean_type, fields.drop_last()) + fields.last().tokens(boolean_type)
    }
}

/// Whether every field that has to be written has an encoding.
pub open spec fn representable(fields: Seq<FieldView>) -> bool {
    forall|i: int| 0 <= i < fields.len() ==> !(#[trigger] fields[i]).unrepresentable()
}

/// The name of the first field that has to be written and has no encoding, if there is
/// such a field.
pub open spec fn unrepresentable_name(fields: Seq<FieldView>) -> Option<Seq<char>>
    decreases fields.len(),
{
    if fields.len() == 0 {
        None
    } else {
        match unrepresentable_name(fields.drop_last()) {
            Some(name) => Some(name),
            None => if fields.last().unrepresentable() {
                Some(fields.last().name)
            } else {
                None
            },
        }
    }
}

/// The message of the error that names a field without an encoding.
pub open spec fn unrepresentable_message(name: Seq<char>) -> Seq<char> {
    "no encoding for the value of "@ + name
}

/// What serializing the fields gives: the tokens where every field that has to be
/// written has an encoding, and else the name of the first field that has none.
pub open spec fn serialized(boolean_type: BooleanType, fields: Seq<FieldView>) -> Result<
    Seq<Seq<char>>,
    Seq<char>,
> {
    match unrepresentable_name(fields) {
        Some(name) => Err(name),
        None => Ok(tokens_of(boolean_type, fields)),
    }
}

/// Whether the outcome of a serialization is the one that `serialized` describes.
pub open spec fn outcome_is(
    outcome: Result<Vec<String>, Error>,
    expected: Result<Seq<Seq<char>>, Seq<char>>,
) -> bool {
    match outcome {
        Ok(args) => expected == Ok::<Seq<Seq<char>>, Seq<char>>(args.deep_view()),
        Err(Error::CommandOptionsSerializationError { message }) => expected is Err
            && message@ == unrepresentable_message(expected->Err_0),
        Err(_) => false,
    }
}

/// One field alone serializes to its own tokens, or fails under its own name.
pub proof fn lemma_single_field(boolean_type: BooleanType, field: FieldView)
    ensures
        tokens_of(boolean_type, seq![field]) == field.tokens(boolean_type),
        unrepresentable_name(seq![field]) == if field.unrepresentable() {
            Some(field.name)
        } else {
            None
        },
{
    let one = seq![field];
    assert(one.drop_last() =~= Seq::<FieldView>::empty());
    assert(one.last() == field);
    assert(tokens_of(boolean_type, one.drop_last()) =~= Seq::<Seq<char>>::empty());
    assert(tokens_of(boolean_type, one) =~= field.tokens(boolean_type));
    assert(unrepresentable_name(one.drop_last()) is None);
}

/// The first field without an encoding among the first `count` fields is also the first
/// one among all of them.
pub proof fn lemma_unrepresentable_name_stays(fields: Seq<FieldView>, count: int)
    requires
        0 <= count <= fields.len(),
        unrepresentable_name(fields.take(count)) is Some,
    ensures
        unrepresentable_name(fields) == unrepresentable_name(fields.take(count)),
    decreases fields.len(),
{
    if count == fields.len() {
        assert(fields.take(count) =~= fields);
    } else {
        assert(fields.drop_last().take(count) =~= fields.take(count));
        lemma_unrepresentable_name_stays(fields.drop_last(), count);
    }
}

/// A list of fields has an error to report exactly when one of the fields that have to
/// be written has no encoding.
pub proof fn lemma_representable_iff_no_name(fields: Seq<FieldView>)
    ensures
        representable(fields) <==> unrepresentable_name(fields) is None,
    decreases fields.len(),
{
    if fields.len() > 0 {
        let front = fields.drop_last();
        lemma_representable_iff_no_name(front);
        if representable(fields) {
            assert forall|i: int| 0 <= i < front.len() implies !(#[trigger] front[i]).unrepresentable() by {
                assert(front[i] == fields[i]);
            }
            assert(!fields[fields.len() - 1].unrepresentable());
        }
        if unrepresentable_name(fields) is None {
            assert forall|i: int| 0 <= i < fields.len() implies !(#[trigger] fields[i]).unrepresentable() by {
                if i < front.len() {
                    assert(front[i] == fields[i]);
                }
            }
        }
    }
}

/// The tokens of the push of one field are the tokens so far, then the field's tokens.
pub proof fn lemma_tokens_of_push(
    boolean_type: BooleanType,
    fields: Seq<FieldView>,
    field: FieldView,
)
    ensures
        tokens_of(boolean_type, fields.push(field)) == tokens_of(boolean_type, fields)
            + field.tokens(boolean_type),
        unrepresentable_name(fields.push(field)) == match unrepresentable_name(fields) {
            Some(name) => Some(name),
            None => if field.unrepresentable() {
                Some(field.name)
            } else {
                None
            },
        },
{
    assert(fields.push(field).drop_last() =~= fields);
    assert(fields.push(field).last() == field);
}

/// A configuration value whose fields are all left out serializes to no token at all,
/// in either rendering of booleans.
pub proof fn absent_fields_give_no_tokens(boolean_type: BooleanType, fields: Seq<FieldView>)
    requires
        forall|i: int| 0 <= i < fields.len() ==> (#[trigger] fields[i]).absent(),
    ensures
        serialized(boolean_type, fields) == Ok::<Seq<Seq<char>>, Seq<char>>(Seq::empty()),
    decreases fields.len(),
{
    if fields.len() > 0 {
        let front = fields.drop_last();
        assert forall|i: int| 0 <= i < front.len() implies (#[trigger] front[i]).absent() by {
            assert(front[i] == fields[i]);
        }
        absent_fields_give_no_tokens(boolean_type, front);
        assert(fields[fields.len() - 1].absent());
        assert(tokens_of(boolean_type, fields) =~= Seq::<Seq<char>>::empty());
    }
}

/// Serializing is a function of the content of the fields and of the rendering of
/// booleans: two runs on values of the same content end the same way, with the same
/// tokens or with the same message.
pub proof fn serialization_is_deterministic(
    boolean_type: BooleanType,
    first: Vec<Field>,
    second: Vec<Field>,
    first_outcome: Result<Vec<String>, Error>,
    second_outcome: Result<Vec<String>, Error>,
)
    requires
        first.deep_view() == second.deep_view(),
        outcome_is(first_outcome, serialized(boolean_type, first.deep_view())),
        outcome_is(second_outcome, serialized(boolean_type, second.deep_view())),
    ensures
        match (first_outcome, second_outcome) {
            (Ok(a), Ok(b)) => a.deep_view() == b.deep_view(),
            (
                Err(Error::CommandOptionsSerializationError { message: a }),
                Err(Error::CommandOptionsSerializationError { message: b }),
            ) => a@ == b@,
            _ => false,
        },
{
}

/// The tokens of a list of fields are the tokens of its front part followed by the
/// tokens of its back part: no field's tokens move before those of an earlier field.
pub proof fn tokens_follow_field_order(
    boolean_type: BooleanType,
    front: Seq<FieldView>,
    back: Seq<FieldView>,
)
    ensures
        tokens_of(boolean_type, front + back) == tokens_of(boolean_type, front) + tokens_of(
            boolean_type,
            back,
        ),
    decreases back.len(),
{
    if back.len() == 0 {
        assert(front + back =~= front);
        assert(tokens_of(boolean_type, front) + tokens_of(boolean_type, back) =~= tokens_of(
            boolean_type,
            front,
        ));
    } else {
        assert((front + back).drop_last() =~= front + back.drop_last());
        assert((front + back).last() == back.last());
        tokens_follow_field_order(boolean_type, front, back.drop_last());
        assert(tokens_of(boolean_type, front + back) =~= tokens_of(boolean_type, front)
            + tokens_of(boolean_type, back));
    }
}

/// Which fields are set changes which tokens are written and nothing else: the outcome
/// is that of the fields that are not left out, taken in their declared order.
pub proof fn absent_fields_are_skipped(boolean_type: BooleanType, fields: Seq<FieldView>)
    ensures
        serialized(boolean_type, fields) == serialized(
            boolean_type,
            fields.filter(|field: FieldView| !field.absent()),
        ),
    decreases fields.len(),
{
    reveal(Seq::filter);
    let present = |field: FieldView| !field.absent();
    if fields.len() > 0 {
        let front = fields.drop_last();
        let last = fields.last();
        absent_fields_are_skipped(boolean_type, front);
        if present(last) {
            assert(fields.filter(present) == front.filter(present).push(last));
            lemma_tokens_of_push(boolean_type, front.filter(present), last);
        } else {
            assert(fields.filter(present) == front.filter(present));
            assert(last.tokens(boolean_type) =~= Seq::<Seq<char>>::empty());
            assert(!last.unrepresentable());
            assert(tokens_of(boolean_type, fields) =~= tokens_of(boolean_type, front));
        }
    }
}

/// A flag that holds is written in exactly one of two ways: with the state word as
/// the flag's name followed by `on`, two tokens; by presence as the flag's name
/// alone. This is stated of flags that are not negated.
pub proof fn true_flag_rendering(name: Seq<char>)
    ensures
        ({
            let field = FieldView {
                name,
                value: FieldValueView::Flag { value: true, negated: false },
                serialized: true,
            };
            &&& serialized(BooleanType::OnOff, seq![field]) == Ok::<Seq<Seq<char>>, Seq<char>>(
                seq![name, "on"@],
            )
            &&& serialized(BooleanType::Presence, seq![field]) == Ok::<
                Seq<Seq<char>>,
                Seq<char>,
            >(seq![name])
        }),
{
    let field = FieldView {
        name,
        value: FieldValueView::Flag { value: true, negated: false },
        serialized: true,
    };
    lemma_single_field(BooleanType::OnOff, field);
    lemma_single_field(BooleanType::Presence, field);
}

/// An enumerated value whose variant has no tokens leaves no trace in the output, not
/// even the field's name where the encoding asks for a leading keyword.
pub proof fn empty_variant_gives_no_tokens(
    boolean_type: BooleanType,
    name: Seq<char>,
    keyword: bool,
    serialized_field: bool,
)
    ensures
        serialized(
            boolean_type,
            seq![
                FieldView {
                    name,
                    value: FieldValueView::Enumerated { tokens: Seq::empty(), keyword },
                    serialized: serialized_field,
                },
            ],
        ) == Ok::<Seq<Seq<char>>, Seq<char>>(Seq::empty()),
{
    let field = FieldView {
        name,
        value: FieldValueView::Enumerated { tokens: Seq::empty(), keyword },
        serialized: serialized_field,
    };
    lemma_single_field(boolean_type, field);
}

/// A variant without an encoding in a field that has to be written makes the whole
/// serialization fail: no token is given out for any of the fields.
pub proof fn unrepresentable_variant_fails(
    boolean_type: BooleanType,
    fields: Seq<FieldView>,
    index: int,
)
    requires
        0 <= index < fields.len(),
        fields[index].unrepresentable(),
    ensures
        serialized(boolean_type, fields) is Err,
{
    lemma_representable_iff_no_name(fields);
}

/// A value that can be written as command-line options: it lists its fields in the
/// order of their declaration, each under the name that the command knows.
pub trait Configuration {
    /// The fields of the value, in declaration order.
    spec fn spec_fields(&self) -> Seq<FieldView>;

    /// Lists the fields of the value, in declaration order.
    fn fields(&self) -> (r: Vec<Field>)
        ensures
            r.deep_view() == self.spec_fields(),
    ;
}

/// An enumerated value each of whose variants stands for a fixed list of tokens. A
/// variant that stands for "nothing chosen" has the empty list.
pub trait Enumerated {
    /// The tokens of the variant.
    spec fn tokens(&self) -> Seq<Seq<char>>;

    /// Writes the tokens of the variant.
    fn serialize(&self) -> (r: Vec<String>)
        ensures
            r.deep_view() == self.tokens(),
    ;
}

/// The tokens of a collection of flags: those of each flag, in the order of the flags.
pub open spec fn collected_tokens<E: Enumerated>(flags: Seq<E>) -> Seq<Seq<char>>
    decreases flags.len(),
{
    if flags.len() == 0 {
        Seq::empty()
    } else {
        collected_tokens(flags.drop_last()) + flags.last().tokens()
    }
}

/// The tokens of an enumerated value that is set.
pub open spec fn optional_tokens<E: Enumerated>(value: Option<E>) -> Option<Seq<Seq<char>>> {
    match value {
        Some(value) => Some(value.tokens()),
        None => None,
    }
}

/// The tokens of a collection of flags that is set.
pub open spec fn optional_collected_tokens<E: Enumerated>(flags: Option<Vec<E>>) -> Option<
    Seq<Seq<char>>,
> {
    match flags {
        Some(flags) => Some(collected_tokens(flags@)),
        None => None,
    }
}

/// Writes the tokens of a collection of flags, flag by flag.
pub fn collect_tokens<E: Enumerated>(flags: &Vec<E>) -> (r: Vec<String>)
    ensures
        r.deep_view() == collected_tokens(flags@),
{
    let mut r: Vec<String> = Vec::new();
    let mut i: usize = 0;
    assert(r.deep_view() =~= Seq::<Seq<char>>::empty());
    assert(flags@.take(0) =~= Seq::<E>::empty());
    while i < flags.len()
        invariant
            i <= flags.len(),
            r.deep_view() == collected_tokens(flags@.take(i as int)),
        decreases flags.len() - i,
    {
        assert(flags@.take(i + 1).drop_last() =~= flags@.take(i as int));
        assert(flags@.take(i + 1).last() == flags@[i as int]);
        append_tokens(&mut r, flags[i].serialize());
        i += 1;
    }
    assert(flags@.take(i as int) =~= flags@);
    r
}

impl Field {
    /// A field that always holds a text.
    pub fn text(name: &str, value: &String) -> (r: Field)
        ensures
            r.deep_view() == FieldView::text(name@, value@),
    {
        Field { name: String::from_str(name), value: FieldValue::Text(value.clone()), serialized: true }
    }

    /// A field that holds a text where it is set.
    pub fn optional_text(name: &str, value: &Option<String>) -> (r: Field)
        ensures
            r.deep_view() == FieldView::optional_text(name@, *value),
    {
        let value = match value {
            Some(text) => FieldValue::Text(text.clone()),
            None => FieldValue::Absent,
        };
        Field { name: String::from_str(name), value, serialized: true }
    }

    /// A field that holds a number where it is set.
    pub fn optional_number(name: &str, value: Option<u32>) -> (r: Field)
        ensures
            r.deep_view() == FieldView::optional_number(name@, value),
    {
        let value = match value {
            Some(number) => FieldValue::Number(number as u64),
            None => FieldValue::Absent,
        };
        Field { name: String::from_str(name), value, serialized: true }
    }

    /// A field that holds a truth value where it is set.
    pub fn optional_flag(name: &str, value: Option<bool>) -> (r: Field)
        ensures
            r.deep_view() == FieldView::optional_flag(name@, value),
    {
        let value = match value {
            Some(value) => FieldValue::Flag { value, negated: false },
            None => FieldValue::Absent,
        };
        Field { name: String::from_str(name), value, serialized: true }
    }

    /// A field that holds an enumerated value where it is set.
    pub fn optional_enumerated<E: Enumerated>(name: &str, value: &Option<E>) -> (r: Field)
        ensures
            r.deep_view() == FieldView::optional_enumerated(name@, optional_tokens(*value)),
    {
        let value = match value {
            Some(value) => FieldValue::Enumerated { tokens: value.serialize(), keyword: false },
            None => FieldValue::Absent,
        };
        Field { name: String::from_str(name), value, serialized: true }
    }

    /// A field that holds a collection of flags where it is set.
    pub fn optional_flags<E: Enumerated>(name: &str, flags: &Option<Vec<E>>) -> (r: Field)
        ensures
            r.deep_view() == FieldView::optional_enumerated(
                name@,
                optional_collected_tokens(*flags),
            ),
    {
        let value = match flags {
            Some(flags) => FieldValue::Enumerated { tokens: collect_tokens(flags), keyword: false },
            None => FieldValue::Absent,
        };
        Field { name: String::from_str(name), value, serialized: true }
    }

    /// A field that always holds an enumerated value, given by what its encoding makes
    /// of the variant: the tokens, or the refusal of a variant that has none.
    pub fn encoded(name: &str, encoding: Result<Vec<String>, Error>) -> (r: Field)
        ensures
            r.deep_view() == FieldView::encoded(
                name@,
                match encoding {
                    Ok(tokens) => Some(tokens.deep_view()),
                    Err(_) => None,
                },
            ),
    {
        let value = match encoding {
            Ok(tokens) => FieldValue::Enumerated { tokens, keyword: false },
            Err(_) => FieldValue::Unrepresentable,
        };
        Field { name: String::from_str(name), value, serialized: true }
    }

    /// The same field, kept out of the command line.
    pub fn skipped(self) -> (r: Field)
        ensures
            r.deep_view() == self.deep_view().skipped(),
    {
        Field { name: self.name, value: self.value, serialized: false }
    }
}

/// A copy of a list of tokens.
pub fn clone_tokens(tokens: &Vec<String>) -> (r: Vec<String>)
    ensures
        r.deep_view() == tokens.deep_view(),
{
    let mut r: Vec<String> = Vec::new();
    let mut i: usize = 0;
    while i < tokens.len()
        invariant
            i <= tokens.len(),
            r@.len() == i,
            forall|j: int| 0 <= j < i ==> (#[trigger] r@[j])@ == tokens@[j]@,
        decreases tokens.len() - i,
    {
        r.push(tokens[i].clone());
        i += 1;
    }
    assert(r.deep_view() =~= tokens.deep_view());
    r
}

/// Moves the tokens of `more` to the end of `args`.
pub fn append_tokens(args: &mut Vec<String>, more: Vec<String>)
    ensures
        final(args).deep_view() == old(args).deep_view() + more.deep_view(),
{
    let mut more = more;
    let ghost before = args.deep_view();
    let ghost added = more.deep_view();
    args.append(&mut more);
    assert(args.deep_view() =~= before + added);
}

/// Writes configuration values as command-line options.
#[derive(Debug, Clone, Copy)]
pub struct Serializer {
    boolean_type: BooleanType,
}

impl Serializer {
    /// The rendering of boolean fields that the serializer was made with.
    pub closed spec fn boolean_type(self) -> BooleanType {
        self.boolean_type
    }

    /// A serializer that writes boolean fields in the given way.
    pub fn new(boolean_type: BooleanType) -> (r: Serializer)
        ensures
            r.boolean_type() == boolean_type,
    {
        Serializer { boolean_type }
    }

    /// The tokens of one field, or the error that names it where its value has no
    /// encoding.
    pub fn field_args(&self, field: &Field) -> (r: Result<Vec<String>, Error>)
        ensures
            r is Ok <==> !field.deep_view().unrepresentable(),
            outcome_is(r, serialized(self.boolean_type(), seq![field.deep_view()])),
    {
        let ghost view = field.deep_view();
        proof {
            lemma_single_field(self.boolean_type, view);
        }
        let name = field.name.as_str();
        let mut args: Vec<String> = Vec::new();
        if field.serialized {
            match &field.value {
                FieldValue::Absent => {},
                FieldValue::Text(text) => {
                    args = text_option(name, text.as_str()).unwrap();
                },
                FieldValue::Number(number) => {
                    args = number_option(name, *number).unwrap();
                },
                FieldValue::Flag { value, negated } => match self.boolean_type {
                    BooleanType::OnOff => {
                        args = state_word_option(name, *value).unwrap();
                    },
                    BooleanType::Presence => {
                        if *value != *negated {
                            args.push(field.name.clone());
                        }
                    },
                },
                FieldValue::Enumerated { tokens, keyword } => {
                    if tokens.len() > 0 {
                        if *keyword {
                            args.push(field.name.clone());
                            assert(args.deep_view() =~= seq![view.name]);
                        }
                        append_tokens(&mut args, clone_tokens(tokens));
                    }
                },
                FieldValue::Unrepresentable => {
                    return Err(
                        Error::CommandOptionsSerializationError {
                            message: String::from_str("no encoding for the value of ").concat(
                                name,
                            ),
                        },
                    );
                },
            }
        }
        assert(args.deep_view() =~= view.tokens(self.boolean_type));
        Ok(args)
    }

    /// The tokens of the fields, in the order of the fields. Where a field that has to
    /// be written holds a variant without an encoding, nothing is written and the error
    /// names the first such field.
    pub fn fields_into_args(&self, fields: &Vec<Field>) -> (r: Result<Vec<String>, Error>)
        ensures
            r is Ok <==> representable(fields.deep_view()),
            outcome_is(r, serialized(self.boolean_type(), fields.deep_view())),
    {
        let ghost all = fields.deep_view();
        proof {
            lemma_representable_iff_no_name(all);
        }
        let mut args: Vec<String> = Vec::new();
        let mut i: usize = 0;
        assert(all.take(0) =~= Seq::<FieldView>::empty());
        while i < fields.len()
            invariant
                i <= fields.len(),
                all == fields.deep_view(),
                unrepresentable_name(all.take(i as int)) is None,
                args.deep_view() == tokens_of(self.boolean_type, all.take(i as int)),
            decreases fields.len() - i,
        {
            proof {
                assert(all[i as int] == fields[i as int].deep_view());
                assert(all.take(i + 1).drop_last() =~= all.take(i as int));
                assert(all.take(i + 1).last() == all[i as int]);
                lemma_single_field(self.boolean_type, all[i as int]);
            }
            match self.field_args(&fields[i]) {
                Ok(more) => {
                    append_tokens(&mut args, more);
                },
                Err(error) => {
                    proof {
                        lemma_unrepresentable_name_stays(all, i + 1);
                    }
                    return Err(error);
                },
            }
            i += 1;
        }
        assert(all.take(i as int) =~= all);
        Ok(args)
    }

    /// The options of a configuration value: the tokens of its fields in declaration
    /// order, or the error that names its first field without an encoding.
    pub fn into_args<C: Configuration>(&self, value: &C) -> (r: Result<Vec<String>, Error>)
        ensures
            r is Ok <==> representable(value.spec_fields()),
            outcome_is(r, serialized(self.boolean_type(), value.spec_fields())),
    {
        let fields = value.fields();
        self.fields_into_args(&fields)
    }
}

} // verus!

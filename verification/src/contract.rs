//! Input contracts and the validation of a call's arguments against them.
//!
//! A contract lists the fields that a tool accepts. Validation reads these
//! fields from an untyped object and gives one typed argument for each, in the
//! contract's order, or the failure of the first field that does not fit.
//! Fields that the contract does not name are ignored.
//!
//! One convention holds for every optional text field: the field left out
//! and the field set to the empty text both mean that the text is absent.
//! `null` means what leaving the field out means, but only in the fields that
//! are marked as nullable; in any other field it is a value of another type
//! than the field's.

use crate::error::{invalid_field, missing_field, not_an_object, ErrorKind, ToolError, ToolErrorView};
use crate::value::{field, Number, Value, ValueView};
use vstd::prelude::*;

verus! {

/// The type of a field's value.
#[derive(Clone, Copy, Debug, PartialEq, Eq)]
pub enum FieldKind {
    /// A string.
    Text,
    /// A boolean.
    Flag,
    /// An unsigned integer of 32 bits.
    Count,
}

/// One field of an input contract.
#[derive(Clone, Debug, PartialEq, Eq)]
pub struct FieldSpec {
    pub name: String,
    pub description: String,
    pub kind: FieldKind,
    /// Whether the arguments must hold the field.
    pub required: bool,
    /// Whether `null` in the field means that the field is left out.
    pub nullable: bool,
}

/// What a `FieldSpec` holds.
pub struct FieldSpecView {
    pub name: Seq<char>,
    pub description: Seq<char>,
    pub kind: FieldKind,
    pub required: bool,
    pub nullable: bool,
}

impl View for FieldSpec {
    type V = FieldSpecView;

    open spec fn view(&self) -> FieldSpecView {
        FieldSpecView {
            name: self.name@,
            description: self.description@,
            kind: self.kind,
            required: self.required,
            nullable: self.nullable,
        }
    }
}

/// An input contract: the fields that a tool accepts.
pub type InputContract = Vec<FieldSpec>;

/// What an input contract holds.
pub open spec fn contract_view(fields: Seq<FieldSpec>) -> Seq<FieldSpecView> {
    Seq::new(fields.len(), |i: int| fields[i]@)
}

/// The typed value of one field.
#[derive(Clone, Debug, PartialEq, Eq)]
pub enum Argument {
    /// An optional field that the call leaves out.
    Absent,
    Text(String),
    Flag(bool),
    Count(u32),
}

/// What an `Argument` holds.
pub enum ArgumentView {
    Absent,
    Text(Seq<char>),
    Flag(bool),
    Count(u32),
}

impl View for Argument {
    type V = ArgumentView;

    open spec fn view(&self) -> ArgumentView {
        match self {
            Argument::Absent => ArgumentView::Absent,
            Argument::Text(s) => ArgumentView::Text(s@),
            Argument::Flag(b) => ArgumentView::Flag(*b),
            Argument::Count(n) => ArgumentView::Count(*n),
        }
    }
}

/// What a list of arguments holds.
pub open spec fn arguments_view(list: Seq<Argument>) -> Seq<ArgumentView> {
    Seq::new(list.len(), |i: int| list[i]@)
}

/// A contract is well formed where no two of its fields have the same name.
pub open spec fn well_formed(contract: Seq<FieldSpecView>) -> bool {
    forall|i: int, j: int|
        0 <= i < j < contract.len() ==> (#[trigger] contract[i]).name != (#[trigger] contract[j]).name
}

/// How a failure names the type that a field asks for.
pub open spec fn expected(kind: FieldKind) -> Seq<char> {
    match kind {
        FieldKind::Text => "a string"@,
        FieldKind::Flag => "a boolean"@,
        FieldKind::Count => "an unsigned 32-bit integer"@,
    }
}

/// A text that may be absent, with the empty text taken as absent.
pub open spec fn present(text: Option<Seq<char>>) -> Option<Seq<char>> {
    match text {
        Some(t) => if t.len() == 0 {
            None
        } else {
            Some(t)
        },
        None => None,
    }
}

/// The typed argument for a field that the arguments leave out: absent, or
/// for a required field the failure.
pub open spec fn left_out(spec: FieldSpecView) -> Result<ArgumentView, ToolErrorView> {
    if spec.required {
        Err(missing_field(spec.name))
    } else {
        Ok(ArgumentView::Absent)
    }
}

/// The typed argument for the field `spec`, where `value` is what the call's
/// arguments hold under the field's name.
///
/// A field that is left out is absent; for a required field that is a
/// failure. `null` in a nullable field means that the field is left out. A
/// value of another type than the field's is a failure, and so is `null` in a
/// field that is not nullable. The empty text in an optional field is absent
/// too; any other text is taken as it stands.
pub open spec fn argument(spec: FieldSpecView, value: Option<ValueView>) -> Result<
    ArgumentView,
    ToolErrorView,
> {
    match value {
        None => left_out(spec),
        Some(ValueView::Null) if spec.nullable => left_out(spec),
        Some(ValueView::Text(t)) if spec.kind == FieldKind::Text => if !spec.required && t.len()
            == 0 {
            Ok(ArgumentView::Absent)
        } else {
            Ok(ArgumentView::Text(t))
        },
        Some(ValueView::Bool(b)) if spec.kind == FieldKind::Flag => Ok(ArgumentView::Flag(b)),
        Some(ValueView::Number(Number::Unsigned(n))) if spec.kind == FieldKind::Count && n
            <= u32::MAX => Ok(ArgumentView::Count(n as u32)),
        _ => Err(invalid_field(spec.name, expected(spec.kind))),
    }
}

/// The typed arguments for the fields of `contract`, read from the object
/// `arguments`: one for each field, in the contract's order, or the failure of
/// the first field that has one.
pub open spec fn decoded_fields(contract: Seq<FieldSpecView>, arguments: ValueView) -> Result<
    Seq<ArgumentView>,
    ToolErrorView,
>
    decreases contract.len(),
{
    if contract.len() == 0 {
        Ok(Seq::empty())
    } else {
        match decoded_fields(contract.drop_last(), arguments) {
            Err(e) => Err(e),
            Ok(list) => match argument(contract.last(), field(arguments, contract.last().name)) {
                Err(e) => Err(e),
                Ok(a) => Ok(list.push(a)),
            },
        }
    }
}

/// The typed arguments that `arguments` give for `contract`. Arguments that
/// are no object are a failure.
pub open spec fn decoded(contract: Seq<FieldSpecView>, arguments: ValueView) -> Result<
    Seq<ArgumentView>,
    ToolErrorView,
> {
    if arguments is Object {
        decoded_fields(contract, arguments)
    } else {
        Err(not_an_object())
    }
}

/// The text of an argument, if it is one.
pub open spec fn text_of(a: ArgumentView) -> Option<Seq<char>> {
    match a {
        ArgumentView::Text(t) => Some(t),
        _ => None,
    }
}

/// The text of an argument; an argument that is no text counts as empty.
pub open spec fn text_or_empty(a: ArgumentView) -> Seq<char> {
    match a {
        ArgumentView::Text(t) => t,
        _ => Seq::empty(),
    }
}

/// The flag of an argument; an argument that is no flag counts as `false`.
pub open spec fn flag_of(a: ArgumentView) -> bool {
    match a {
        ArgumentView::Flag(b) => b,
        _ => false,
    }
}

/// The count of an argument, if it is one.
pub open spec fn count_of(a: ArgumentView) -> Option<u32> {
    match a {
        ArgumentView::Count(n) => Some(n),
        _ => None,
    }
}

/// A failure in the first fields of a contract is the failure of the whole.
pub proof fn lemma_failure_stays(contract: Seq<FieldSpecView>, arguments: ValueView, k: int)
    requires
        0 <= k <= contract.len(),
        decoded_fields(contract.take(k), arguments) is Err,
    ensures
        decoded_fields(contract, arguments) == decoded_fields(contract.take(k), arguments),
    decreases contract.len() - k,
{
    if k == contract.len() {
        assert(contract.take(k) =~= contract);
    } else {
        let longer = contract.take(k + 1);
        assert(longer.drop_last() =~= contract.take(k));
        lemma_failure_stays(contract, arguments, k + 1);
    }
}

/// Where validation succeeds it gives one argument for each field of the
/// contract, each read from the field of that name.
pub proof fn lemma_decoded_each(contract: Seq<FieldSpecView>, arguments: ValueView)
    requires
        decoded_fields(contract, arguments) is Ok,
    ensures
        decoded_fields(contract, arguments)->Ok_0.len() == contract.len(),
        forall|i: int|
            0 <= i < contract.len() ==> argument(
                #[trigger] contract[i],
                field(arguments, contract[i].name),
            ) == Ok::<ArgumentView, ToolErrorView>(decoded_fields(contract, arguments)->Ok_0[i]),
    decreases contract.len(),
{
    if contract.len() > 0 {
        let shorter = contract.drop_last();
        lemma_decoded_each(shorter, arguments);
        let list = decoded_fields(contract, arguments)->Ok_0;
        assert forall|i: int| 0 <= i < contract.len() implies argument(
            #[trigger] contract[i],
            field(arguments, contract[i].name),
        ) == Ok::<ArgumentView, ToolErrorView>(list[i]) by {
            if i < shorter.len() {
                assert(shorter[i] == contract[i]);
            }
        }
    }
}

/// Validation looks at the arguments only through the fields that the
/// contract names: two objects that give every field of the contract the same
/// typed argument are validated alike.
pub proof fn lemma_decoded_alike(contract: Seq<FieldSpecView>, a: ValueView, b: ValueView)
    requires
        forall|i: int|
            0 <= i < contract.len() ==> argument(#[trigger] contract[i], field(a, contract[i].name))
                == argument(contract[i], field(b, contract[i].name)),
    ensures
        decoded_fields(contract, a) == decoded_fields(contract, b),
    decreases contract.len(),
{
    if contract.len() > 0 {
        let shorter = contract.drop_last();
        assert forall|i: int| 0 <= i < shorter.len() implies argument(
            #[trigger] shorter[i],
            field(a, shorter[i].name),
        ) == argument(shorter[i], field(b, shorter[i].name)) by {
            assert(shorter[i] == contract[i]);
        }
        lemma_decoded_alike(shorter, a, b);
        assert(contract.last() == contract[contract.len() - 1]);
    }
}

/// Every failure of validation is of kind `DecodeFailure`.
pub proof fn law_validation_fails_as_decode_failure(
    contract: Seq<FieldSpecView>,
    arguments: ValueView,
)
    ensures
        decoded(contract, arguments) matches Err(e) ==> e.kind == ErrorKind::DecodeFailure,
        decoded_fields(contract, arguments) matches Err(e) ==> e.kind == ErrorKind::DecodeFailure,
    decreases contract.len(),
{
    if contract.len() > 0 {
        law_validation_fails_as_decode_failure(contract.drop_last(), arguments);
    }
}

/// Whether a failure is one of the two that validation has for the field
/// `spec`: both hold the field's name in their message.
pub open spec fn names_field(failure: ToolErrorView, spec: FieldSpecView) -> bool {
    failure == missing_field(spec.name) || failure == invalid_field(spec.name, expected(spec.kind))
}

/// A failure of the validation of an object names the field that does not
/// fit: it is the failure for a missing field or for a field of another
/// type, with the name of a field of the contract.
pub proof fn law_failure_names_a_field(contract: Seq<FieldSpecView>, arguments: ValueView)
    requires
        decoded_fields(contract, arguments) is Err,
    ensures
        exists|i: int|
            0 <= i < contract.len() && names_field(
                decoded_fields(contract, arguments)->Err_0,
                #[trigger] contract[i],
            ),
    decreases contract.len(),
{
    let failure = decoded_fields(contract, arguments)->Err_0;
    let shorter = contract.drop_last();
    if decoded_fields(shorter, arguments) is Err {
        law_failure_names_a_field(shorter, arguments);
        let i = choose|i: int| 0 <= i < shorter.len() && names_field(failure, #[trigger] shorter[i]);
        assert(shorter[i] == contract[i]);
    } else {
        assert(names_field(failure, contract[contract.len() - 1]));
    }
}

/// Arguments that leave out a required field, or hold `null` for it, fail
/// validation with a `DecodeFailure`. Where the field is left out and no field
/// before it fails, the failure is the one for the missing field, by its name.
pub proof fn law_missing_required_field_fails(
    contract: Seq<FieldSpecView>,
    arguments: ValueView,
    i: int,
)
    requires
        0 <= i < contract.len(),
        contract[i].required,
        field(arguments, contract[i].name) is None || field(arguments, contract[i].name) == Some(
            ValueView::Null,
        ),
    ensures
        decoded(contract, arguments) is Err,
        decoded(contract, arguments)->Err_0.kind == ErrorKind::DecodeFailure,
        arguments is Object && field(arguments, contract[i].name) is None && decoded_fields(
            contract.take(i),
            arguments,
        ) is Ok ==> decoded(contract, arguments) == Err::<Seq<ArgumentView>, ToolErrorView>(
            missing_field(contract[i].name),
        ),
{
    law_validation_fails_as_decode_failure(contract, arguments);
    if arguments is Object {
        let upto = contract.take(i + 1);
        assert(upto.drop_last() =~= contract.take(i));
        assert(upto.last() == contract[i]);
        lemma_failure_stays(contract, arguments, i + 1);
    }
}

/// In an optional text field the empty text means what leaving the field out
/// means: two argument objects of which one holds the empty text in the field
/// `contract[i]` and the other leaves that field out, and which agree in every
/// other field of the contract, are validated alike.
pub proof fn law_empty_text_is_absent(
    contract: Seq<FieldSpecView>,
    with_empty: ValueView,
    without: ValueView,
    i: int,
)
    requires
        0 <= i < contract.len(),
        contract[i].kind == FieldKind::Text,
        !contract[i].required,
        with_empty is Object,
        without is Object,
        field(with_empty, contract[i].name) == Some(ValueView::Text(Seq::empty())),
        field(without, contract[i].name) is None,
        forall|j: int|
            0 <= j < contract.len() && j != i ==> field(with_empty, (#[trigger] contract[j]).name)
                == field(without, contract[j].name),
    ensures
        decoded(contract, with_empty) == decoded(contract, without),
{
    assert forall|j: int| 0 <= j < contract.len() implies argument(
        #[trigger] contract[j],
        field(with_empty, contract[j].name),
    ) == argument(contract[j], field(without, contract[j].name)) by {
    }
    lemma_decoded_alike(contract, with_empty, without);
}

impl FieldSpec {
    /// A field of the given name, description and type; `required` says
    /// whether the arguments must hold it, `nullable` whether `null` in it
    /// means that it is left out.
    pub fn new(
        name: &str,
        description: &str,
        kind: FieldKind,
        required: bool,
        nullable: bool,
    ) -> (spec: FieldSpec)
        ensures
            spec@ == (FieldSpecView {
                name: name@,
                description: description@,
                kind,
                required,
                nullable,
            }),
    {
        FieldSpec {
            name: String::from_str(name),
            description: String::from_str(description),
            kind,
            required,
            nullable,
        }
    }

    /// The typed argument for this field where the arguments leave it out.
    fn left_out(&self) -> (r: Result<Argument, ToolError>)
        ensures
            match r {
                Ok(a) => left_out(self@) == Ok::<ArgumentView, ToolErrorView>(a@),
                Err(e) => left_out(self@) == Err::<ArgumentView, ToolErrorView>(e@),
            },
    {
        if self.required {
            Err(ToolError::missing_field(self.name.as_str()))
        } else {
            Ok(Argument::Absent)
        }
    }

    /// How a failure names the type that this field asks for.
    fn expected(&self) -> (s: &'static str)
        ensures
            s@ == expected(self.kind),
    {
        match self.kind {
            FieldKind::Text => "a string",
            FieldKind::Flag => "a boolean",
            FieldKind::Count => "an unsigned 32-bit integer",
        }
    }

    /// The typed argument for this field: see `argument`.
    pub fn decode(&self, value: Option<&Value>) -> (r: Result<Argument, ToolError>)
        ensures
            match r {
                Ok(a) => argument(
                    self@,
                    match value {
                        Some(v) => Some(v@),
                        None => None,
                    },
                ) == Ok::<ArgumentView, ToolErrorView>(a@),
                Err(e) => argument(
                    self@,
                    match value {
                        Some(v) => Some(v@),
                        None => None,
                    },
                ) == Err::<ArgumentView, ToolErrorView>(e@),
            },
    {
        match value {
            None => self.left_out(),
            Some(Value::Null) => {
                if self.nullable {
                    self.left_out()
                } else {
                    Err(ToolError::invalid_field(self.name.as_str(), self.expected()))
                }
            },
            Some(Value::Text(t)) => {
                match self.kind {
                    FieldKind::Text => {
                        if !self.required && t.as_str().is_empty() {
                            Ok(Argument::Absent)
                        } else {
                            Ok(Argument::Text(t.clone()))
                        }
                    },
                    _ => Err(ToolError::invalid_field(self.name.as_str(), self.expected())),
                }
            },
            Some(Value::Bool(b)) => {
                match self.kind {
                    FieldKind::Flag => Ok(Argument::Flag(*b)),
                    _ => Err(ToolError::invalid_field(self.name.as_str(), self.expected())),
                }
            },
            Some(Value::Number(Number::Unsigned(n))) => {
                match self.kind {
                    FieldKind::Count => {
                        if *n <= 0xffff_ffff {
                            Ok(Argument::Count(*n as u32))
                        } else {
                            Err(ToolError::invalid_field(self.name.as_str(), self.expected()))
                        }
                    },
                    _ => Err(ToolError::invalid_field(self.name.as_str(), self.expected())),
                }
            },
            Some(_) => Err(ToolError::invalid_field(self.name.as_str(), self.expected())),
        }
    }
}

impl Argument {
    /// The text of this argument, if it is one.
    pub fn text(&self) -> (r: Option<String>)
        ensures
            r.deep_view() == text_of(self@),
    {
        match self {
            Argument::Text(s) => Some(s.clone()),
            _ => None,
        }
    }

    /// The text of this argument; the empty text for an argument that is no
    /// text.
    pub fn text_or_empty(&self) -> (r: String)
        ensures
            r@ == text_or_empty(self@),
    {
        match self {
            Argument::Text(s) => s.clone(),
            _ => String::new(),
        }
    }

    /// The flag of this argument; `false` for an argument that is no flag.
    pub fn flag(&self) -> (r: bool)
        ensures
            r == flag_of(self@),
    {
        match self {
            Argument::Flag(b) => *b,
            _ => false,
        }
    }

    /// The count of this argument, if it is one.
    pub fn count(&self) -> (r: Option<u32>)
        ensures
            r == count_of(self@),
    {
        match self {
            Argument::Count(n) => Some(*n),
            _ => None,
        }
    }
}

/// A text that may be absent, with the empty text taken as absent.
pub fn absent_if_empty(text: Option<String>) -> (r: Option<String>)
    ensures
        r.deep_view() == present(text.deep_view()),
{
    match text {
        Some(t) => {
            if t.as_str().is_empty() {
                None
            } else {
                Some(t)
            }
        },
        None => None,
    }
}

/// Validates `arguments` against `contract`: see `decoded`.
pub fn validate(contract: &Vec<FieldSpec>, arguments: &Value) -> (r: Result<
    Vec<Argument>,
    ToolError,
>)
    ensures
        match r {
            Ok(list) => decoded(contract_view(contract@), arguments@) == Ok::<
                Seq<ArgumentView>,
                ToolErrorView,
            >(arguments_view(list@)),
            Err(e) => decoded(contract_view(contract@), arguments@) == Err::<
                Seq<ArgumentView>,
                ToolErrorView,
            >(e@),
        },
{
    match arguments {
        Value::Object(_) => {},
        _ => {
            return Err(ToolError::not_an_object());
        },
    }
    let ghost whole = contract_view(contract@);
    let mut list: Vec<Argument> = Vec::new();
    let mut i: usize = 0;
    proof {
        assert(whole.take(0) =~= Seq::empty());
        assert(arguments_view(list@) =~= Seq::empty());
    }
    while i < contract.len()
        invariant
            whole == contract_view(contract@),
            arguments@ is Object,
            0 <= i <= contract.len(),
            decoded_fields(whole.take(i as int), arguments@) == Ok::<
                Seq<ArgumentView>,
                ToolErrorView,
            >(arguments_view(list@)),
        decreases contract.len() - i,
    {
        let spec = &contract[i];
        let value = arguments.get(spec.name.as_str());
        proof {
            let upto = whole.take(i + 1);
            assert(upto.drop_last() =~= whole.take(i as int));
            assert(upto.last() == spec@);
        }
        match spec.decode(value) {
            Err(e) => {
                proof {
                    lemma_failure_stays(whole, arguments@, i + 1);
                }
                return Err(e);
            },
            Ok(a) => {
                proof {
                    assert(arguments_view(list@.push(a)) =~= arguments_view(list@).push(a@));
                }
                list.push(a);
            },
        }
        i += 1;
    }
    proof {
        assert(whole.take(i as int) =~= whole);
    }
    Ok(list)
}

} // verus!

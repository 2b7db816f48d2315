//! Stored records: which variant a record belongs to, and the model that it
//! spells out.
//!
//! A record is a JSON object; its member `name` holds the display name of
//! the variant whose parameters the record stores. The text of a record is
//! read and written elsewhere; here a record is looked at as a parsed value
//! or field by field.

use crate::catalog::lemma_name_identifies;
use crate::catalog::variant_named;
use crate::catalog::Variant;
use crate::model::fits_kind;
use crate::model::Model;
use crate::model::ModelView;
use crate::seqs::copied;
use crate::state::lemma_state_round_trip;
use crate::state::record_fits;
use crate::state::spells;
use crate::state::state_of;
use crate::state::State;
use crate::state::StateRecord;
use serde_json::Value;
use vstd::prelude::*;

verus! {

/// `serde_json::Value`, declared so that it can be taken as an argument.
/// Nothing is known of what a value holds but what [`text_members`] names.
#[verifier::external_type_specification]
#[verifier::external_body]
pub struct ExValue(Value);

/// The members of a JSON object whose values are strings, by key. A value
/// that is no object has none.
pub uninterp spec fn text_members(record: Value) -> Map<Seq<char>, Seq<char>>;

/// Why a record yields no model.
#[derive(Debug)]
pub enum LoadError {
    /// The record has no member `name` that holds a string.
    NameNotFound,
    /// The record names something that is no variant; the name is kept.
    InvalidName(String),
    /// The record names a variant and does not have the shape of one.
    Malformed,
}

/// What a [`LoadError`] says, as a mathematical value.
pub enum Fault {
    /// The record has no name.
    NameNotFound,
    /// The record's name, which is no variant's.
    InvalidName(Seq<char>),
    /// The record does not have the shape of its variant.
    Malformed,
}

impl View for LoadError {
    type V = Fault;

    open spec fn view(&self) -> Fault {
        match self {
            LoadError::NameNotFound => Fault::NameNotFound,
            LoadError::InvalidName(name) => Fault::InvalidName(name@),
            LoadError::Malformed => Fault::Malformed,
        }
    }
}

/// A model as a stored record spells it out, field by field.
pub struct Record<T> {
    /// Display name of the variant.
    pub name: String,
    /// The update rule in words.
    pub map_str: String,
    /// Ends of the interval of each coefficient.
    pub range: Vec<(T, T)>,
    /// Step by which an editor changes each coefficient.
    pub speeds: Vec<T>,
    /// The coefficients.
    pub coefs: Vec<T>,
    /// The state.
    pub state: StateRecord<T>,
}

/// Calls `serde_json::Value::get` with a string key and
/// `serde_json::Value::as_str` on what was found. The claim: a text comes
/// back exactly when `record` is an object with a member `key` whose value
/// is a string, and it is a copy of that string.
#[verifier::external_body]
fn text_member(record: &Value, key: &str) -> (text: Option<String>)
    ensures
        text is Some <==> text_members(*record).contains_key(key@),
        text matches Some(t) ==> t@ == text_members(*record)[key@],
{
    record.get(key).and_then(Value::as_str).map(str::to_owned)
}

/// What a record is found to be from the text of its member `name`, `None`
/// standing for a record without such a member.
pub open spec fn classified(name: Option<Seq<char>>) -> Result<Variant, Fault> {
    match name {
        None => Err(Fault::NameNotFound),
        Some(text) => match variant_named(text) {
            Some(v) => Ok(v),
            None => Err(Fault::InvalidName(text)),
        },
    }
}

/// The characters of a name, where there is one.
pub open spec fn text_of(name: Option<String>) -> Option<Seq<char>> {
    match name {
        Some(text) => Some(text@),
        None => None,
    }
}

/// Whether what was found is what was to be found.
pub open spec fn found_as<V>(found: Result<V, LoadError>, due: Result<V, Fault>) -> bool {
    match (found, due) {
        (Ok(v), Ok(w)) => v == w,
        (Err(e), Err(fault)) => e@ == fault,
        _ => false,
    }
}

/// The variant that the name of a record stands for. Fails with
/// `NameNotFound` when there is no name, and with `InvalidName` when the name
/// is not the display name of a variant.
pub fn classify(name: Option<String>) -> (found: Result<Variant, LoadError>)
    ensures
        found_as(found, classified(text_of(name))),
{
    match name {
        None => Err(LoadError::NameNotFound),
        Some(text) => match Variant::from_name(text.as_str()) {
            Some(v) => Ok(v),
            None => Err(LoadError::InvalidName(text)),
        },
    }
}

/// The text of the member `name` of a record, as [`classified`] takes it.
pub open spec fn record_name(record: Value) -> Option<Seq<char>> {
    if text_members(record).contains_key("name"@) {
        Some(text_members(record)["name"@])
    } else {
        None
    }
}

/// The variant that a stored record belongs to, from the record's member
/// `name`.
pub fn variant_of_record(record: &Value) -> (found: Result<Variant, LoadError>)
    ensures
        found_as(found, classified(record_name(*record))),
{
    classify(text_member(record, "name"))
}

/// The model that a record spells out, with a clock that starts at `epoch`:
/// the record has to name a variant and to have that variant's shape. The
/// update rule in words is not read; it follows from the variant.
pub open spec fn decoded<T>(rec: Record<T>, epoch: T) -> Result<ModelView<T>, Fault> {
    match variant_named(rec.name@) {
        None => Err(Fault::InvalidName(rec.name@)),
        Some(kind) => if record_fits(rec.state) && rec.state.n == kind.spec_dimension()
            && fits_kind(kind, rec.coefs@, rec.range@, rec.speeds@, state_of(rec.state, epoch)) {
            Ok(
                ModelView {
                    kind,
                    coefs: rec.coefs@,
                    range: rec.range@,
                    speeds: rec.speeds@,
                    state: state_of(rec.state, epoch),
                },
            )
        } else {
            Err(Fault::Malformed)
        },
    }
}

/// Whether `rec` spells out the model `model`.
pub open spec fn spells_model<T>(rec: Record<T>, model: ModelView<T>) -> bool {
    &&& rec.name@ == model.kind.spec_name()
    &&& rec.range@ == model.range
    &&& rec.speeds@ == model.speeds
    &&& rec.coefs@ == model.coefs
    &&& spells(rec.state, model.state, model.kind.spec_dimension())
}

/// Writing a model down and reading it back recovers it: the record that
/// spells out a model of the right shape decodes to that very model, with
/// its coefficients, its initial point and its time step.
pub proof fn lemma_round_trip<T>(model: ModelView<T>, rec: Record<T>)
    requires
        fits_kind(model.kind, model.coefs, model.range, model.speeds, model.state),
        spells_model(rec, model),
    ensures
        decoded(rec, model.state.epoch) == Ok::<ModelView<T>, Fault>(model),
{
    lemma_name_identifies(model.kind);
    lemma_state_round_trip(model.state, model.kind.spec_dimension(), rec.state);
}

/// Builds the model that a record spells out, with a clock that starts at
/// `epoch`. Fails with `InvalidName` when the record names no variant, and
/// with `Malformed` when it does not have the shape of the variant that it
/// names.
pub fn decode<T: Copy>(rec: Record<T>, epoch: T) -> (found: Result<Model<T>, LoadError>)
    ensures
        match (found, decoded(rec, epoch)) {
            (Ok(model), Ok(due)) => model.wf() && model@ == due,
            (Err(e), Err(fault)) => e@ == fault,
            _ => false,
        },
{
    let kind = match Variant::from_name(rec.name.as_str()) {
        Some(kind) => kind,
        None => {
            return Err(LoadError::InvalidName(rec.name));
        },
    };
    let state = match State::from_record(rec.state, epoch) {
        Some(state) => state,
        None => {
            return Err(LoadError::Malformed);
        },
    };
    proof {
        state.lemma_wf();
    }
    if state.dimension() != kind.dimension() {
        return Err(LoadError::Malformed);
    }
    match Model::new(kind, rec.coefs, rec.range, rec.speeds, state) {
        Some(model) => Ok(model),
        None => Err(LoadError::Malformed),
    }
}

/// The record that spells a model out.
pub fn encode<T: Copy>(model: &Model<T>) -> (rec: Record<T>)
    requires
        model.wf(),
    ensures
        spells_model(rec, model@),
        rec.map_str@ == model@.kind.spec_map_str(),
{
    proof {
        model.lemma_wf();
    }
    Record {
        name: model.name().to_owned(),
        map_str: model.map_str().to_owned(),
        range: copied(model.coef_ranges()),
        speeds: copied(model.speeds()),
        coefs: copied(model.coefs()),
        state: model.state().to_record(),
    }
}

} // verus!

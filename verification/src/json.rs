use serde_json::Value;
use vstd::prelude::*;
use crate::server::server_error::ServerError;
use crate::text::same_text;

verus! {

/// A number as the text format knows it: a whole number without a sign, a
/// negative whole number, or the decimal text of anything else.
#[derive(Debug)]
pub enum JsonNumber {
    PosInt(u64),
    NegInt(i64),
    Real(String),
}

/// What a [`JsonNumber`] stands for in contracts.
pub enum NumberModel {
    PosInt(u64),
    NegInt(i64),
    Real(Seq<char>),
}

impl View for JsonNumber {
    type V = NumberModel;

    open spec fn view(&self) -> NumberModel {
        match self {
            JsonNumber::PosInt(n) => NumberModel::PosInt(*n),
            JsonNumber::NegInt(n) => NumberModel::NegInt(*n),
            JsonNumber::Real(text) => NumberModel::Real(text@),
        }
    }
}

/// One member of an object: a name and what it holds.
#[derive(Debug)]
pub struct Member {
    pub name: String,
    pub value: JsonValue,
}

/// A value of the text format, as a tree.
#[derive(Debug)]
pub enum JsonValue {
    Null,
    Bool(bool),
    Number(JsonNumber),
    String(String),
    Array(Vec<JsonValue>),
    Object(Vec<Member>),
}

/// What a [`Member`] stands for in contracts.
pub struct MemberModel {
    pub name: Seq<char>,
    pub value: JsonModel,
}

/// What a [`JsonValue`] stands for in contracts.
pub enum JsonModel {
    Null,
    Bool(bool),
    Number(NumberModel),
    String(Seq<char>),
    Array(Seq<JsonModel>),
    Object(Seq<MemberModel>),
}

/// The tree that a value stands for.
pub open spec fn model_of(value: JsonValue) -> JsonModel
    decreases value,
{
    match value {
        JsonValue::Null => JsonModel::Null,
        JsonValue::Bool(b) => JsonModel::Bool(b),
        JsonValue::Number(n) => JsonModel::Number(n@),
        JsonValue::String(s) => JsonModel::String(s@),
        JsonValue::Array(items) => JsonModel::Array(
            Seq::new(
                items.len() as nat,
                |i: int|
                    if 0 <= i < items.len() {
                        model_of(items[i])
                    } else {
                        JsonModel::Null
                    },
            ),
        ),
        JsonValue::Object(members) => JsonModel::Object(
            Seq::new(
                members.len() as nat,
                |i: int|
                    if 0 <= i < members.len() {
                        MemberModel { name: members[i].name@, value: model_of(members[i].value) }
                    } else {
                        MemberModel { name: Seq::empty(), value: JsonModel::Null }
                    },
            ),
        ),
    }
}

impl View for JsonValue {
    type V = JsonModel;

    open spec fn view(&self) -> JsonModel {
        model_of(*self)
    }
}

impl View for Member {
    type V = MemberModel;

    open spec fn view(&self) -> MemberModel {
        MemberModel { name: self.name@, value: self.value@ }
    }
}


/// The models of the values of a list, in order.
pub open spec fn models(items: Seq<JsonValue>) -> Seq<JsonModel> {
    Seq::new(items.len(), |i: int| items[i]@)
}

/// The models of the members of an object, in order.
pub open spec fn member_models(members: Seq<Member>) -> Seq<MemberModel> {
    Seq::new(members.len(), |i: int| members[i]@)
}

/// What a list of members holds under a name: the value of the first member
/// of that name.
pub open spec fn find_member(members: Seq<MemberModel>, name: Seq<char>) -> Option<JsonModel>
    decreases members.len(),
{
    if members.len() == 0 {
        None
    } else if members[0].name == name {
        Some(members[0].value)
    } else {
        find_member(members.skip(1), name)
    }
}

impl NumberModel {
    /// The number where it is whole.
    pub open spec fn whole(self) -> Option<int> {
        match self {
            NumberModel::PosInt(n) => Some(n as int),
            NumberModel::NegInt(n) => Some(n as int),
            NumberModel::Real(_) => None,
        }
    }
}

impl JsonModel {
    /// The value of the first member of this name, where this is an object
    /// that has one.
    pub open spec fn member(self, name: Seq<char>) -> Option<JsonModel> {
        match self {
            JsonModel::Object(members) => find_member(members, name),
            _ => None,
        }
    }

    pub open spec fn text(self) -> Option<Seq<char>> {
        match self {
            JsonModel::String(s) => Some(s),
            _ => None,
        }
    }

    pub open spec fn boolean(self) -> Option<bool> {
        match self {
            JsonModel::Bool(b) => Some(b),
            _ => None,
        }
    }

    pub open spec fn number(self) -> Option<NumberModel> {
        match self {
            JsonModel::Number(n) => Some(n),
            _ => None,
        }
    }

    pub open spec fn items(self) -> Option<Seq<JsonModel>> {
        match self {
            JsonModel::Array(items) => Some(items),
            _ => None,
        }
    }

    /// The whole number that this is, where it is one between `low` and
    /// `high`.
    pub open spec fn whole_within(self, low: int, high: int) -> Option<int> {
        match self {
            JsonModel::Number(n) => match n.whole() {
                Some(w) => if low <= w <= high {
                    Some(w)
                } else {
                    None
                },
                None => None,
            },
            _ => None,
        }
    }

    /// A text that may be left out: `Some(None)` where this is null,
    /// `Some(Some(..))` where it is a text, `None` where it is anything else.
    pub open spec fn optional_text(self) -> Option<Option<Seq<char>>> {
        match self {
            JsonModel::Null => Some(None),
            JsonModel::String(s) => Some(Some(s)),
            _ => None,
        }
    }

    /// The tree of a whole number.
    pub open spec fn whole(n: int) -> JsonModel {
        if n >= 0 {
            JsonModel::Number(NumberModel::PosInt(n as u64))
        } else {
            JsonModel::Number(NumberModel::NegInt(n as i64))
        }
    }

    /// The tree of a text that may be left out.
    pub open spec fn maybe_text(text: Option<Seq<char>>) -> JsonModel {
        match text {
            Some(t) => JsonModel::String(t),
            None => JsonModel::Null,
        }
    }

    /// What was found, or null where nothing was.
    pub open spec fn or_null(found: Option<JsonModel>) -> JsonModel {
        match found {
            Some(value) => value,
            None => JsonModel::Null,
        }
    }

    /// A whole number between `low` and `high` that may be left out.
    pub open spec fn optional_whole_within(self, low: int, high: int) -> Option<Option<int>> {
        match self {
            JsonModel::Null => Some(None),
            _ => match self.whole_within(low, high) {
                Some(n) => Some(Some(n)),
                None => None,
            },
        }
    }

    /// The text under this name.
    pub open spec fn text_member(self, name: Seq<char>) -> Option<Seq<char>> {
        match self.member(name) {
            Some(JsonModel::String(text)) => Some(text),
            _ => None,
        }
    }

    /// The text under this name, which may be null or left out.
    pub open spec fn optional_text_member(self, name: Seq<char>) -> Option<Option<Seq<char>>> {
        Self::or_null(self.member(name)).optional_text()
    }

    /// The truth value under this name.
    pub open spec fn bool_member(self, name: Seq<char>) -> Option<bool> {
        match self.member(name) {
            Some(JsonModel::Bool(b)) => Some(b),
            _ => None,
        }
    }

    /// The number under this name.
    pub open spec fn number_member(self, name: Seq<char>) -> Option<NumberModel> {
        match self.member(name) {
            Some(JsonModel::Number(n)) => Some(n),
            _ => None,
        }
    }

    /// The whole number between `low` and `high` under this name.
    pub open spec fn whole_member(self, name: Seq<char>, low: int, high: int) -> Option<int> {
        match self.member(name) {
            Some(value) => value.whole_within(low, high),
            None => None,
        }
    }

    /// The whole number between `low` and `high` under this name, which may
    /// be null or left out.
    pub open spec fn optional_whole_member(self, name: Seq<char>, low: int, high: int) -> Option<
        Option<int>,
    > {
        Self::or_null(self.member(name)).optional_whole_within(low, high)
    }

    /// The tree of a whole number that may be left out.
    pub open spec fn maybe_whole(n: Option<int>) -> JsonModel {
        match n {
            Some(n) => JsonModel::whole(n),
            None => JsonModel::Null,
        }
    }

    /// An object with no member.
    pub open spec fn record() -> JsonModel {
        JsonModel::Object(Seq::empty())
    }

    /// This object with one more member at its end.
    pub open spec fn put(self, name: Seq<char>, value: JsonModel) -> JsonModel {
        match self {
            JsonModel::Object(members) => JsonModel::Object(
                members.push(MemberModel { name, value }),
            ),
            other => other,
        }
    }
}

/// A member whose name no earlier member has is the one found under that
/// name.
pub proof fn lemma_find_first_of_name(members: Seq<MemberModel>, i: int)
    requires
        0 <= i < members.len(),
        forall|j: int| 0 <= j < i ==> (#[trigger] members[j]).name != members[i].name,
    ensures
        find_member(members, members[i].name) == Some(members[i].value),
    decreases i,
{
    if i > 0 {
        let rest = members.skip(1);
        assert(rest[i - 1] == members[i]);
        assert forall|j: int| 0 <= j < i - 1 implies (#[trigger] rest[j]).name != rest[i - 1].name by {
            assert(rest[j] == members[j + 1]);
        }
        lemma_find_first_of_name(rest, i - 1);
    }
}

/// The view of a list is the list of the views.
pub proof fn lemma_view_of_array(items: Vec<JsonValue>)
    ensures
        JsonValue::Array(items)@ == JsonModel::Array(models(items@)),
{
    assert(JsonValue::Array(items)@->Array_0 =~= models(items@));
}

/// The view of an object is the list of the views of its members.
pub proof fn lemma_view_of_object(members: Vec<Member>)
    ensures
        JsonValue::Object(members)@ == JsonModel::Object(member_models(members@)),
{
    assert(JsonValue::Object(members)@->Object_0 =~= member_models(members@));
}

impl Clone for JsonNumber {
    fn clone(&self) -> (copy: JsonNumber)
        ensures
            copy@ == self@,
    {
        match self {
            JsonNumber::PosInt(n) => JsonNumber::PosInt(*n),
            JsonNumber::NegInt(n) => JsonNumber::NegInt(*n),
            JsonNumber::Real(text) => JsonNumber::Real(text.clone()),
        }
    }
}

impl JsonValue {
    /// The value of the first member of this name.
    pub fn member(&self, name: &str) -> (found: Option<&JsonValue>)
        ensures
            match found {
                Some(value) => self@.member(name@) == Some(value@),
                None => self@.member(name@) is None,
            },
    {
        match self {
            JsonValue::Object(members) => {
                proof {
                    lemma_view_of_object(*members);
                }
                let ghost all = member_models(members@);
                assert(all.skip(0) =~= all);
                let mut i: usize = 0;
                while i < members.len()
                    invariant
                        i <= members.len(),
                        all == member_models(members@),
                        self@ == JsonModel::Object(all),
                        find_member(all, name@) == find_member(all.skip(i as int), name@),
                    decreases members.len() - i,
                {
                    assert(all.skip(i as int)[0] == members[i as int]@);
                    assert(all.skip(i as int).skip(1) =~= all.skip(i + 1));
                    if same_text(members[i].name.as_str(), name) {
                        return Some(&members[i].value);
                    }
                    i += 1;
                }
                None
            },
            _ => None,
        }
    }

    pub fn text(&self) -> (found: Option<&String>)
        ensures
            match found {
                Some(text) => self@.text() == Some(text@),
                None => self@.text() is None,
            },
    {
        match self {
            JsonValue::String(text) => Some(text),
            _ => None,
        }
    }

    pub fn boolean(&self) -> (found: Option<bool>)
        ensures
            found == self@.boolean(),
    {
        match self {
            JsonValue::Bool(b) => Some(*b),
            _ => None,
        }
    }

    pub fn number(&self) -> (found: Option<&JsonNumber>)
        ensures
            match found {
                Some(n) => self@.number() == Some(n@),
                None => self@.number() is None,
            },
    {
        match self {
            JsonValue::Number(n) => Some(n),
            _ => None,
        }
    }

    pub fn items(&self) -> (found: Option<&Vec<JsonValue>>)
        ensures
            match found {
                Some(items) => self@.items() == Some(models(items@)),
                None => self@.items() is None,
            },
    {
        match self {
            JsonValue::Array(items) => {
                proof {
                    lemma_view_of_array(*items);
                }
                Some(items)
            },
            _ => None,
        }
    }

    /// This value as a whole number without a sign that fits in 64 bits.
    pub fn whole_u64(&self) -> (found: Option<u64>)
        ensures
            match found {
                Some(n) => self@.whole_within(0, u64::MAX as int) == Some(n as int),
                None => self@.whole_within(0, u64::MAX as int) is None,
            },
    {
        match self {
            JsonValue::Number(JsonNumber::PosInt(n)) => Some(*n),
            JsonValue::Number(JsonNumber::NegInt(n)) => if *n >= 0 {
                Some(*n as u64)
            } else {
                None
            },
            _ => None,
        }
    }

    /// This value as a whole number that fits in 32 bits with a sign.
    pub fn whole_i32(&self) -> (found: Option<i32>)
        ensures
            match found {
                Some(n) => self@.whole_within(i32::MIN as int, i32::MAX as int) == Some(n as int),
                None => self@.whole_within(i32::MIN as int, i32::MAX as int) is None,
            },
    {
        match self {
            JsonValue::Number(JsonNumber::PosInt(n)) => if *n <= 0x7fff_ffff {
                Some(*n as i32)
            } else {
                None
            },
            JsonValue::Number(JsonNumber::NegInt(n)) => if -0x8000_0000 <= *n && *n <= 0x7fff_ffff {
                Some(*n as i32)
            } else {
                None
            },
            _ => None,
        }
    }

    /// This value as a whole number without a sign that fits in 16 bits.
    pub fn whole_u16(&self) -> (found: Option<u16>)
        ensures
            match found {
                Some(n) => self@.whole_within(0, u16::MAX as int) == Some(n as int),
                None => self@.whole_within(0, u16::MAX as int) is None,
            },
    {
        match self {
            JsonValue::Number(JsonNumber::PosInt(n)) => if *n <= 0xffff {
                Some(*n as u16)
            } else {
                None
            },
            JsonValue::Number(JsonNumber::NegInt(n)) => if 0 <= *n && *n <= 0xffff {
                Some(*n as u16)
            } else {
                None
            },
            _ => None,
        }
    }

    /// This value as a text that may be left out.
    pub fn optional_text(&self) -> (found: Option<Option<&String>>)
        ensures
            match found {
                Some(Some(text)) => self@.optional_text() == Some(Some(text@)),
                Some(None) => self@.optional_text() == Some(None::<Seq<char>>),
                None => self@.optional_text() is None,
            },
    {
        match self {
            JsonValue::Null => Some(None),
            JsonValue::String(text) => Some(Some(text)),
            _ => None,
        }
    }

    /// The text under this name.
    pub fn text_member(&self, name: &str) -> (found: Option<String>)
        ensures
            match found {
                Some(text) => self@.text_member(name@) == Some(text@),
                None => self@.text_member(name@) is None,
            },
    {
        match self.member(name) {
            Some(JsonValue::String(text)) => Some(text.clone()),
            _ => None,
        }
    }

    /// The text under this name, which may be null or left out.
    pub fn optional_text_member(&self, name: &str) -> (found: Option<Option<String>>)
        ensures
            match found {
                Some(Some(text)) => self@.optional_text_member(name@) == Some(Some(text@)),
                Some(None) => self@.optional_text_member(name@) == Some(None::<Seq<char>>),
                None => self@.optional_text_member(name@) is None,
            },
    {
        match self.member(name) {
            Some(JsonValue::String(text)) => Some(Some(text.clone())),
            Some(JsonValue::Null) => Some(None),
            Some(_) => None,
            None => Some(None),
        }
    }

    /// The truth value under this name.
    pub fn bool_member(&self, name: &str) -> (found: Option<bool>)
        ensures
            found == self@.bool_member(name@),
    {
        match self.member(name) {
            Some(JsonValue::Bool(b)) => Some(*b),
            _ => None,
        }
    }

    /// The number under this name.
    pub fn number_member(&self, name: &str) -> (found: Option<JsonNumber>)
        ensures
            match found {
                Some(n) => self@.number_member(name@) == Some(n@),
                None => self@.number_member(name@) is None,
            },
    {
        match self.member(name) {
            Some(JsonValue::Number(n)) => Some(n.clone()),
            _ => None,
        }
    }

    /// The whole number under this name, where it fits in 64 bits without a
    /// sign.
    pub fn u64_member(&self, name: &str) -> (found: Option<u64>)
        ensures
            match found {
                Some(n) => self@.whole_member(name@, 0, u64::MAX as int) == Some(n as int),
                None => self@.whole_member(name@, 0, u64::MAX as int) is None,
            },
    {
        match self.member(name) {
            Some(value) => value.whole_u64(),
            None => None,
        }
    }

    /// The whole number under this name, where it fits in 32 bits with a
    /// sign.
    pub fn i32_member(&self, name: &str) -> (found: Option<i32>)
        ensures
            match found {
                Some(n) => self@.whole_member(name@, i32::MIN as int, i32::MAX as int) == Some(
                    n as int,
                ),
                None => self@.whole_member(name@, i32::MIN as int, i32::MAX as int) is None,
            },
    {
        match self.member(name) {
            Some(value) => value.whole_i32(),
            None => None,
        }
    }

    /// The whole number under this name, which may be null or left out,
    /// where it fits in 16 bits without a sign.
    pub fn optional_u16_member(&self, name: &str) -> (found: Option<Option<u16>>)
        ensures
            match found {
                Some(Some(n)) => self@.optional_whole_member(name@, 0, u16::MAX as int) == Some(
                    Some(n as int),
                ),
                Some(None) => self@.optional_whole_member(name@, 0, u16::MAX as int) == Some(
                    None::<int>,
                ),
                None => self@.optional_whole_member(name@, 0, u16::MAX as int) is None,
            },
    {
        match self.member(name) {
            Some(JsonValue::Null) => Some(None),
            Some(value) => match value.whole_u16() {
                Some(n) => Some(Some(n)),
                None => None,
            },
            None => Some(None),
        }
    }

    /// The tree of a whole number of 16 bits that may be left out.
    pub fn maybe_u16(n: Option<u16>) -> (value: JsonValue)
        ensures
            value@ == JsonModel::maybe_whole(
                match n {
                    Some(n) => Some(n as int),
                    None => None,
                },
            ),
    {
        match n {
            Some(n) => JsonValue::unsigned(n as u64),
            None => JsonValue::Null,
        }
    }

    /// An object with no member.
    pub fn record() -> (value: JsonValue)
        ensures
            value@ == JsonModel::record(),
    {
        let members: Vec<Member> = Vec::new();
        proof {
            lemma_view_of_object(members);
            assert(member_models(members@) =~= Seq::empty());
        }
        JsonValue::Object(members)
    }

    /// This object with one more member at its end. Anything but an object
    /// is handed back as it is.
    pub fn put(self, name: &str, value: JsonValue) -> (longer: JsonValue)
        ensures
            longer@ == self@.put(name@, value@),
    {
        match self {
            JsonValue::Object(members) => {
                let mut members = members;
                let ghost before = members;
                let member = Member { name: name.to_owned(), value };
                members.push(member);
                proof {
                    lemma_view_of_object(before);
                    lemma_view_of_object(members);
                    assert(member_models(members@) =~= member_models(before@).push(member@));
                }
                JsonValue::Object(members)
            },
            other => other,
        }
    }

    /// The tree of a text that may be left out.
    pub fn maybe_text(text: &Option<String>) -> (value: JsonValue)
        ensures
            value@ == JsonModel::maybe_text(
                match *text {
                    Some(t) => Some(t@),
                    None => None,
                },
            ),
    {
        match text {
            Some(t) => JsonValue::String(t.clone()),
            None => JsonValue::Null,
        }
    }

    /// The tree of a whole number without a sign.
    pub fn unsigned(n: u64) -> (value: JsonValue)
        ensures
            value@ == JsonModel::whole(n as int),
    {
        JsonValue::Number(JsonNumber::PosInt(n))
    }

    /// The tree of a whole number.
    pub fn integer(n: i64) -> (value: JsonValue)
        ensures
            value@ == JsonModel::whole(n as int),
    {
        if n >= 0 {
            JsonValue::Number(JsonNumber::PosInt(n as u64))
        } else {
            JsonValue::Number(JsonNumber::NegInt(n))
        }
    }
}

/// The error type of `serde_json`.
#[verifier::external_type_specification]
#[verifier::external_body]
pub struct ExJsonError(serde_json::Error);

/// The tree type of `serde_json`.
#[verifier::external_type_specification]
#[verifier::external_body]
pub struct ExSerdeValue(serde_json::Value);

/// The tree that `serde_json::from_slice` reads from a text, in the form in
/// which `parse` hands it on, where it reads one.
pub uninterp spec fn parsed(text: Seq<u8>) -> Option<JsonModel>;

/// The text that `serde_json::to_vec` writes for a tree, in the form in
/// which `print` hands it over, where it writes one.
pub uninterp spec fn printed(value: JsonModel) -> Option<Seq<u8>>;

/// Turns a tree of `serde_json` into a tree of this library, node by node.
/// A number that `Number::as_u64` gives is held as that, one that only
/// `Number::as_i64` gives as that, any other as the text that `to_string`
/// writes for it.
#[verifier::external_body]
fn lift(value: Value) -> JsonValue {
    match value {
        Value::Null => JsonValue::Null,
        Value::Bool(b) => JsonValue::Bool(b),
        Value::Number(n) => JsonValue::Number(match (n.as_u64(), n.as_i64()) {
            (Some(u), _) => JsonNumber::PosInt(u),
            (None, Some(i)) => JsonNumber::NegInt(i),
            (None, None) => JsonNumber::Real(n.to_string()),
        }),
        Value::String(s) => JsonValue::String(s),
        Value::Array(a) => JsonValue::Array(a.into_iter().map(lift).collect()),
        Value::Object(o) => JsonValue::Object(
            o.into_iter().map(|(name, v)| Member { name, value: lift(v) }).collect()),
    }
}

/// Turns a tree of this library into a tree of `serde_json`, node by node.
/// The text of a number goes through `str::parse`; one that is no number
/// becomes null.
#[verifier::external_body]
fn lower(value: &JsonValue) -> Value {
    match value {
        JsonValue::Null => Value::Null,
        JsonValue::Bool(b) => Value::Bool(*b),
        JsonValue::Number(JsonNumber::PosInt(n)) => Value::from(*n),
        JsonValue::Number(JsonNumber::NegInt(n)) => Value::from(*n),
        JsonValue::Number(JsonNumber::Real(t)) => t.parse().map_or(Value::Null, Value::Number),
        JsonValue::String(s) => Value::String(s.clone()),
        JsonValue::Array(a) => Value::Array(a.iter().map(lower).collect()),
        JsonValue::Object(o) => Value::Object(
            o.iter().map(|m| (m.name.clone(), lower(&m.value))).collect()),
    }
}

/// `serde_json::from_slice`, asked for a tree. The same text always gives the
/// same tree, or always fails: `parsed` is the name of that outcome.
#[verifier::external_body]
pub(crate) fn parse(text: &[u8]) -> (outcome: Result<JsonValue, serde_json::Error>)
    ensures
        match outcome {
            Ok(value) => parsed(text@) == Some(value@),
            Err(_) => parsed(text@) is None,
        },
{
    let value: Value = serde_json::from_slice(text)?;
    Ok(lift(value))
}

/// `serde_json::to_vec`, given a tree. The same tree always gives the same
/// text, or always fails: `printed` is the name of that outcome.
#[verifier::external_body]
pub(crate) fn print(value: &JsonValue) -> (outcome: Result<Vec<u8>, serde_json::Error>)
    ensures
        match outcome {
            Ok(text) => printed(value@) == Some(text@),
            Err(_) => printed(value@) is None,
        },
{
    serde_json::to_vec(&lower(value))
}

/// A record of the service that has a form in the text format.
pub trait Payload: View + Sized {
    /// The tree that stands for a record.
    spec fn encoded(model: Self::V) -> JsonModel;

    /// The record that a tree stands for, where it stands for one.
    spec fn decoded(json: JsonModel) -> Option<Self::V>;

    fn to_json(&self) -> (json: JsonValue)
        ensures
            json@ == Self::encoded(self@),
    ;

    fn from_json(json: &JsonValue) -> (value: Option<Self>)
        ensures
            match value {
                Some(v) => Self::decoded(json@) == Some(v@),
                None => Self::decoded(json@) is None,
            },
    ;

    /// Reading back the tree of a record gives that record.
    proof fn lemma_round_trip(model: Self::V)
        ensures
            Self::decoded(Self::encoded(model)) == Some(model),
    ;
}

/// The record that a text stands for, where it stands for one.
pub open spec fn read_as<P: Payload>(text: Seq<u8>) -> Option<P::V> {
    match parsed(text) {
        Some(tree) => P::decoded(tree),
        None => None,
    }
}

/// The text that is written for a record, where one is written.
pub open spec fn written<P: Payload>(record: P::V) -> Option<Seq<u8>> {
    printed(P::encoded(record))
}

/// The record that a text stands for.
pub fn from_text<P: Payload>(text: &[u8]) -> (record: Result<P, ServerError>)
    ensures
        match record {
            Ok(read) => read_as::<P>(text@) == Some(read@),
            Err(error) => error == ServerError::Json && read_as::<P>(text@) is None,
        },
{
    match parse(text) {
        Ok(tree) => match P::from_json(&tree) {
            Some(read) => Ok(read),
            None => Err(ServerError::Json),
        },
        Err(error) => Err(ServerError::from(error)),
    }
}

/// The text of a record.
pub fn to_text<P: Payload>(record: &P) -> (text: Result<Vec<u8>, ServerError>)
    ensures
        match text {
            Ok(bytes) => written::<P>(record@) == Some(bytes@),
            Err(error) => error == ServerError::Json && written::<P>(record@) is None,
        },
{
    match print(&record.to_json()) {
        Ok(bytes) => Ok(bytes),
        Err(error) => Err(ServerError::from(error)),
    }
}

/// The views of the records of a list, in order.
pub open spec fn views<P: View>(items: Seq<P>) -> Seq<P::V> {
    Seq::new(items.len(), |i: int| items[i]@)
}

/// The list that stands for a list of records.
pub open spec fn encoded_list<P: Payload>(items: Seq<P::V>) -> JsonModel {
    JsonModel::Array(Seq::new(items.len(), |i: int| P::encoded(items[i])))
}

/// The records that a list stands for, where each of its values stands for
/// one.
pub open spec fn decoded_list<P: Payload>(json: JsonModel) -> Option<Seq<P::V>> {
    match json {
        JsonModel::Array(items) => if forall|i: int|
            0 <= i < items.len() ==> (#[trigger] P::decoded(items[i])) is Some {
            Some(Seq::new(items.len(), |i: int| P::decoded(items[i]).unwrap()))
        } else {
            None
        },
        _ => None,
    }
}

/// The list that stands for a list of records.
pub fn encode_list<P: Payload>(items: &Vec<P>) -> (json: JsonValue)
    ensures
        json@ == encoded_list::<P>(views(items@)),
{
    let mut values: Vec<JsonValue> = Vec::new();
    let mut i: usize = 0;
    while i < items.len()
        invariant
            i <= items.len(),
            values.len() == i,
            forall|j: int| 0 <= j < i ==> (#[trigger] values@[j])@ == P::encoded(items@[j]@),
        decreases items.len() - i,
    {
        values.push(items[i].to_json());
        i += 1;
    }
    proof {
        lemma_view_of_array(values);
        assert(models(values@) =~= encoded_list::<P>(views(items@))->Array_0);
    }
    JsonValue::Array(values)
}

/// The records that a list stands for.
pub fn decode_list<P: Payload>(json: &JsonValue) -> (records: Option<Vec<P>>)
    ensures
        match records {
            Some(list) => decoded_list::<P>(json@) == Some(views(list@)),
            None => decoded_list::<P>(json@) is None,
        },
{
    match json.items() {
        Some(values) => {
            let mut list: Vec<P> = Vec::new();
            let mut i: usize = 0;
            while i < values.len()
                invariant
                    i <= values.len(),
                    list.len() == i,
                    json@ == JsonModel::Array(models(values@)),
                    forall|j: int|
                        0 <= j < i ==> P::decoded(#[trigger] models(values@)[j]) == Some(
                            list@[j]@,
                        ),
                decreases values.len() - i,
            {
                match P::from_json(&values[i]) {
                    Some(record) => {
                        list.push(record);
                    },
                    None => {
                        assert(P::decoded(models(values@)[i as int]) is None);
                        return None;
                    },
                }
                i += 1;
            }
            assert(decoded_list::<P>(json@)->Some_0 =~= views(list@));
            Some(list)
        },
        None => None,
    }
}

/// Reading back the list of a list of records gives those records.
pub proof fn lemma_list_round_trip<P: Payload>(items: Seq<P::V>)
    ensures
        decoded_list::<P>(encoded_list::<P>(items)) == Some(items),
{
    let listed = encoded_list::<P>(items)->Array_0;
    assert forall|i: int| 0 <= i < listed.len() implies (#[trigger] P::decoded(listed[i])) == Some(
        items[i],
    ) by {
        P::lemma_round_trip(items[i]);
    }
    assert(decoded_list::<P>(encoded_list::<P>(items))->Some_0 =~= items);
}

} // verus!

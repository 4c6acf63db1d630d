//! Sparse structured-field emission.
//!
//! A diagnostic event carries a fixed, closed schema of optional context
//! fields; any subset of them may be populated per event. Rendering an event
//! produces one structured record holding the message, a severity, and
//! exactly the populated fields: an absent field does not appear at all,
//! while a field explicitly set to a zero-equivalent value (empty string, 0)
//! appears with exactly that value.

use vstd::prelude::*;

verus! {

/// Severity level of an emitted diagnostic record.
#[derive(Clone, Copy, Debug, PartialEq, Eq)]
pub enum Severity {
    Error,
}

/// The names of the context fields: the schema is closed, so the set of
/// names is known up front.
#[derive(Clone, Copy, Debug, PartialEq, Eq)]
pub enum FieldName {
    AccountId,
    GameId,
    Highscore,
}

/// The text under which a field name appears in a rendered record.
pub open spec fn spec_field_text(n: FieldName) -> Seq<char> {
    match n {
        FieldName::AccountId => "account_id"@,
        FieldName::GameId => "game_id"@,
        FieldName::Highscore => "highscore"@,
    }
}

impl FieldName {
    /// The text form of this field name, as a sink expects it.
    pub fn as_text(&self) -> (r: &'static str)
        ensures
            r@ == spec_field_text(*self),
    {
        match self {
            FieldName::AccountId => "account_id",
            FieldName::GameId => "game_id",
            FieldName::Highscore => "highscore",
        }
    }
}

impl Severity {
    /// The text form of this severity, as a sink expects it.
    pub fn as_text(&self) -> (r: &'static str)
        ensures
            r@ == "error"@,
    {
        match self {
            Severity::Error => "error",
        }
    }
}

/// A value filled into a reserved slot of a record: text stays text,
/// integers stay bare numbers.
#[derive(Clone, Debug, PartialEq, Eq)]
pub enum FieldValue {
    Text(String),
    Int(i64),
    UInt(u32),
}

/// The mathematical model of a slot value.
pub ghost enum FieldValueView {
    Text(Seq<char>),
    Int(int),
    UInt(int),
}

impl View for FieldValue {
    type V = FieldValueView;

    open spec fn view(&self) -> FieldValueView {
        match self {
            FieldValue::Text(s) => FieldValueView::Text(s@),
            FieldValue::Int(n) => FieldValueView::Int(*n as int),
            FieldValue::UInt(n) => FieldValueView::UInt(*n as int),
        }
    }
}

/// One filled slot of a rendered record: a schema name and the value
/// supplied for it.
#[derive(Clone, Debug, PartialEq, Eq)]
pub struct Entry {
    pub name: FieldName,
    pub value: FieldValue,
}

/// The mathematical model of a filled slot.
pub ghost struct EntryView {
    pub name: FieldName,
    pub value: FieldValueView,
}

impl View for Entry {
    type V = EntryView;

    open spec fn view(&self) -> EntryView {
        EntryView { name: self.name, value: self.value@ }
    }
}

/// The sparse bag of context fields: a fixed schema of independently
/// optional attributes. Absence is distinct from a present zero-equivalent
/// value: `None` means not supplied, `Some("")` or `Some(0)` means supplied.
#[derive(Clone, Debug, PartialEq, Eq)]
pub struct Fields {
    pub account_id: Option<String>,
    pub game_id: Option<i64>,
    pub highscore: Option<u32>,
}

/// The mathematical model of a field bag.
pub ghost struct FieldsView {
    pub account_id: Option<Seq<char>>,
    pub game_id: Option<int>,
    pub highscore: Option<int>,
}

impl View for Fields {
    type V = FieldsView;

    open spec fn view(&self) -> FieldsView {
        FieldsView {
            account_id: match self.account_id {
                Some(s) => Some(s@),
                None => None,
            },
            game_id: match self.game_id {
                Some(n) => Some(n as int),
                None => None,
            },
            highscore: match self.highscore {
                Some(n) => Some(n as int),
                None => None,
            },
        }
    }
}

impl Default for Fields {
    /// A bag with every field absent.
    fn default() -> (r: Self)
        ensures
            r@.account_id is None,
            r@.game_id is None,
            r@.highscore is None,
    {
        Fields { account_id: None, game_id: None, highscore: None }
    }
}

/// A structured error: a human-readable message paired with one sparse
/// bag of context fields. Immutable after construction and consumed
/// exactly once by [`MyError::record`].
#[derive(Clone, Debug, PartialEq, Eq)]
pub struct MyError {
    pub msg: &'static str,
    pub fields: Fields,
}

impl Default for MyError {
    /// An error with an empty message and every field absent.
    fn default() -> (r: Self)
        ensures
            r.msg@ == ""@,
            r.fields@.account_id is None,
            r.fields@.game_id is None,
            r.fields@.highscore is None,
    {
        MyError { msg: "", fields: Fields::default() }
    }
}

/// One rendered structured record: the message, the severity, and the
/// filled slots — exactly the populated context fields, in schema order.
#[derive(Clone, Debug, PartialEq, Eq)]
pub struct Record {
    pub severity: Severity,
    pub message: &'static str,
    pub entries: Vec<Entry>,
}

/// The mathematical model of a rendered record.
pub ghost struct RecordView {
    pub severity: Severity,
    pub message: Seq<char>,
    pub entries: Seq<EntryView>,
}

impl View for Record {
    type V = RecordView;

    open spec fn view(&self) -> RecordView {
        RecordView {
            severity: self.severity,
            message: self.message@,
            entries: self.entries@.map_values(|e: Entry| e@),
        }
    }
}

/// The slots a field bag renders to: one entry per populated field, with
/// exactly the supplied value, in schema order; an absent field contributes
/// nothing at all.
pub open spec fn spec_entries(f: FieldsView) -> Seq<EntryView> {
    (if f.account_id is Some {
        seq![EntryView { name: FieldName::AccountId, value: FieldValueView::Text(f.account_id->0) }]
    } else {
        Seq::empty()
    }) + (if f.game_id is Some {
        seq![EntryView { name: FieldName::GameId, value: FieldValueView::Int(f.game_id->0) }]
    } else {
        Seq::empty()
    }) + (if f.highscore is Some {
        seq![EntryView { name: FieldName::Highscore, value: FieldValueView::UInt(f.highscore->0) }]
    } else {
        Seq::empty()
    })
}

impl MyError {
    /// Render this error as one structured record for a sink: the record
    /// carries the message, severity `error`, and exactly the populated
    /// context fields. Consumes the error.
    pub fn record(self) -> (r: Record)
        ensures
            r@.severity == Severity::Error,
            r@.message == self.msg@,
            r@.entries == spec_entries(self.fields@),
    {
        let MyError { msg, fields } = self;
        let ghost fv = fields@;
        let Fields { account_id, game_id, highscore } = fields;
        let mut entries: Vec<Entry> = Vec::new();
        if let Some(account_id) = account_id {
            entries.push(Entry { name: FieldName::AccountId, value: FieldValue::Text(account_id) });
        }
        if let Some(game_id) = game_id {
            entries.push(Entry { name: FieldName::GameId, value: FieldValue::Int(game_id) });
        }
        if let Some(highscore) = highscore {
            entries.push(Entry { name: FieldName::Highscore, value: FieldValue::UInt(highscore) });
        }
        let r = Record { severity: Severity::Error, message: msg, entries };
        proof {
            assert(r@.entries =~= spec_entries(fv));
        }
        r
    }
}

/// Whether the field named `n` is populated in the bag `f`.
pub open spec fn populated(f: FieldsView, n: FieldName) -> bool {
    match n {
        FieldName::AccountId => f.account_id is Some,
        FieldName::GameId => f.game_id is Some,
        FieldName::Highscore => f.highscore is Some,
    }
}

/// Whether some entry of `entries` carries the name `n`.
pub open spec fn contains_name(entries: Seq<EntryView>, n: FieldName) -> bool {
    exists|i: int| 0 <= i < entries.len() && entries[i].name == n
}

/// The rendered field set is exactly the populated subset: a name appears
/// among the entries if and only if that field was populated, and no name
/// appears twice.
pub proof fn lemma_field_set_exact(f: FieldsView)
    ensures
        forall|n: FieldName| #[trigger] contains_name(spec_entries(f), n) <==> populated(f, n),
        forall|i: int, j: int|
            0 <= i < j < spec_entries(f).len() ==> spec_entries(f)[i].name
                != spec_entries(f)[j].name,
{
    let s = spec_entries(f);
    assert forall|n: FieldName| #[trigger] contains_name(s, n) <==> populated(f, n) by {
        if populated(f, n) {
            match n {
                FieldName::AccountId => {
                    assert(s[0].name == FieldName::AccountId);
                }
                FieldName::GameId => {
                    let i = if f.account_id is Some { 1int } else { 0int };
                    assert(s[i].name == FieldName::GameId);
                }
                FieldName::Highscore => {
                    let i: int = s.len() - 1;
                    assert(s[i].name == FieldName::Highscore);
                }
            }
        }
    }
}

/// A populated field appears among the rendered entries with exactly the
/// value it was supplied — including zero-equivalent values such as the
/// empty string or 0, which are populated and so are never elided.
pub proof fn lemma_populated_value_appears(f: FieldsView)
    ensures
        (f.account_id matches Some(s) ==> spec_entries(f).contains(
            EntryView { name: FieldName::AccountId, value: FieldValueView::Text(s) },
        )),
        (f.game_id matches Some(n) ==> spec_entries(f).contains(
            EntryView { name: FieldName::GameId, value: FieldValueView::Int(n) },
        )),
        (f.highscore matches Some(n) ==> spec_entries(f).contains(
            EntryView { name: FieldName::Highscore, value: FieldValueView::UInt(n) },
        )),
{
    let s = spec_entries(f);
    if f.account_id is Some {
        assert(s[0] == (EntryView {
            name: FieldName::AccountId,
            value: FieldValueView::Text(f.account_id->0),
        }));
    }
    if f.game_id is Some {
        let i = if f.account_id is Some { 1int } else { 0int };
        assert(s[i] == (EntryView {
            name: FieldName::GameId,
            value: FieldValueView::Int(f.game_id->0),
        }));
    }
    if f.highscore is Some {
        let i: int = s.len() - 1;
        assert(s[i] == (EntryView {
            name: FieldName::Highscore,
            value: FieldValueView::UInt(f.highscore->0),
        }));
    }
}

/// An absent field does not appear among the rendered entries under any
/// representation: no entry carries its name at all.
pub proof fn lemma_absent_field_elided(f: FieldsView)
    ensures
        (f.account_id is None ==> forall|i: int|
            0 <= i < spec_entries(f).len() ==> (#[trigger] spec_entries(f)[i]).name
                != FieldName::AccountId),
        (f.game_id is None ==> forall|i: int|
            0 <= i < spec_entries(f).len() ==> (#[trigger] spec_entries(f)[i]).name
                != FieldName::GameId),
        (f.highscore is None ==> forall|i: int|
            0 <= i < spec_entries(f).len() ==> (#[trigger] spec_entries(f)[i]).name
                != FieldName::Highscore),
{
}

/// Distinct schema fields render under distinct text names, so the textual
/// field set of a record mirrors the schema field set exactly.
pub proof fn lemma_field_texts_distinct(a: FieldName, b: FieldName)
    ensures
        a != b ==> spec_field_text(a) != spec_field_text(b),
{
    reveal_strlit("account_id");
    reveal_strlit("game_id");
    reveal_strlit("highscore");
    assert(spec_field_text(FieldName::AccountId).len() == 10);
    assert(spec_field_text(FieldName::GameId).len() == 7);
    assert(spec_field_text(FieldName::Highscore).len() == 9);
}

} // verus!


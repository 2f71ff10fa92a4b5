//! What the assistant sends to a skill: the utterance, what was recognized in
//! it, and the session it belongs to.

use crate::errors::{Error, ErrorView};
use crate::instant::{Instant, InstantView};
use crate::json::{JsonValue, JsonView};
use crate::yandex_types::{fragment_of, YandexDateTime};
use std::collections::HashMap;
use vstd::prelude::*;

verus! {

/// A message from the assistant to a skill. What the skill stored for the
/// session and for the user comes back in `state`, in shapes of its own.
#[derive(Default, Debug)]
pub struct IncomingMessage<SessionState = JsonValue, UserState = JsonValue> {
    pub meta: Meta,
    pub request: Request,
    pub session: Session,
    pub version: String,
    pub state: State<SessionState, UserState>,
}

/// What a skill stored: for the length of the session, and for the user
/// across sessions.
#[derive(Default, Debug)]
pub struct State<SessionState, UserState> {
    pub session: Option<SessionState>,
    pub user: Option<UserState>,
}

/// The device and the application that the user speaks to.
#[derive(Default, Debug)]
pub struct Meta {
    pub locale: String,
    pub timezone: String,
    pub client_id: String,
    pub interfaces: Interfaces,
}

/// What the user's device can do. A member is there where the device can.
#[derive(Default, Debug)]
pub struct Interfaces {
    pub screen: Option<InterfaceScreen>,
    pub account_linking: Option<InterfaceAccountLinking>,
}

/// The device has a screen.
#[derive(Debug)]
pub struct InterfaceScreen {}

/// The user can link an account.
#[derive(Debug)]
pub struct InterfaceAccountLinking {}

/// What the user said or did.
#[derive(Default, Debug)]
pub struct Request {
    pub command: String,
    pub original_utterance: String,
    pub request_type: Option<RequestInnerType>,
    pub markup: Markup,
    pub payload: JsonValue,
    pub nlu: Nlu,
}

/// The inner part of a message: another name for [`Request`].
pub type RequestInner = Request;

/// How the request came about. A type that is not known is kept as it came.
#[derive(PartialEq, Debug)]
pub enum RequestInnerType {
    SimpleUtterance,
    ButtonPressed,
    Unknown(String),
}

impl From<String> for RequestInnerType {
    /// The type that the protocol writes as `s`.
    fn from(s: String) -> (r: RequestInnerType) {
        if s == "SimpleUtterance".to_owned() {
            RequestInnerType::SimpleUtterance
        } else if s == "ButtonPressed".to_owned() {
            RequestInnerType::ButtonPressed
        } else {
            RequestInnerType::Unknown(s)
        }
    }
}

impl vstd::std_specs::convert::FromSpecImpl<String> for RequestInnerType {
    open spec fn obeys_from_spec() -> bool {
        true
    }

    open spec fn from_spec(s: String) -> RequestInnerType {
        if s@ == "SimpleUtterance"@ {
            RequestInnerType::SimpleUtterance
        } else if s@ == "ButtonPressed"@ {
            RequestInnerType::ButtonPressed
        } else {
            RequestInnerType::Unknown(s)
        }
    }
}

/// Marks that the assistant put on the utterance.
#[derive(Default, Debug)]
pub struct Markup {
    pub dangerous_context: bool,
}

/// What the assistant made of the utterance: its words, the entities and the
/// intents recognized in it.
#[derive(Default, Debug)]
pub struct Nlu {
    pub tokens: Vec<String>,
    pub entities: Vec<NluEntity>,
    pub intents: HashMap<String, Intent>,
}

/// An intent that was recognized, with the entities that fill its slots.
#[derive(Default, Debug)]
pub struct Intent {
    pub slots: HashMap<String, NluEntity>,
}

/// The session that a message belongs to.
#[derive(Debug)]
pub struct Session {
    pub session_id: String,
    pub skill_id: String,
    pub user_id: String,
    pub message_id: i64,
    pub new: bool,
}

impl Session {
    /// Whether nothing is known of the session: no names, message 0, not new.
    pub open spec fn is_empty(&self) -> bool {
        &&& self.session_id@ == Seq::<char>::empty()
        &&& self.skill_id@ == Seq::<char>::empty()
        &&& self.user_id@ == Seq::<char>::empty()
        &&& self.message_id == 0
        &&& !self.new
    }
}

impl Default for Session {
    /// The session of which nothing is known.
    fn default() -> (r: Session)
        ensures
            r.is_empty(),
    {
        Session {
            session_id: String::new(),
            skill_id: String::new(),
            user_id: String::new(),
            message_id: 0,
            new: false,
        }
    }
}

impl Clone for Session {
    /// A copy of the session.
    fn clone(&self) -> (r: Session)
        ensures
            r == *self,
    {
        Session {
            session_id: self.session_id.clone(),
            skill_id: self.skill_id.clone(),
            user_id: self.user_id.clone(),
            message_id: self.message_id,
            new: self.new,
        }
    }
}

/// The type of an entity that holds a date and time.
pub open spec fn date_time_type() -> Seq<char> {
    "YANDEX.DATETIME"@
}

/// The words of the utterance that an entity covers.
#[derive(Default, Debug)]
pub struct NluEntityTokens {
    pub start: u16,
    pub end: u16,
}

/// Something that the assistant recognized in the utterance. What it holds
/// is in `value`, in a shape that `entity_type` decides. For a date and time
/// the fragment is read from `value` when it is first asked for, and kept.
#[derive(Debug)]
pub struct NluEntity {
    pub tokens: NluEntityTokens,
    pub entity_type: String,
    pub value: JsonValue,
    ydt: Option<YandexDateTime>,
}

/// The mathematical value of an [`NluEntity`]: its three fields and the
/// fragment that was read and kept, if any.
pub ghost struct NluEntityView {
    pub tokens: NluEntityTokens,
    pub entity_type: Seq<char>,
    pub value: JsonView,
    pub memo: Option<YandexDateTime>,
}

impl NluEntityView {
    /// Whether the entity holds a date and time.
    pub open spec fn is_date_time(self) -> bool {
        self.entity_type == date_time_type()
    }

    /// Whether asking for the fragment reads the value.
    pub open spec fn reads_value(self) -> bool {
        self.memo is None
    }

    /// The fragment of the entity: the one kept, else the one its value holds.
    pub open spec fn fragment(self) -> Option<YandexDateTime> {
        match self.memo {
            Some(kept) => Some(kept),
            None => fragment_of(self.value),
        }
    }

    /// The entity after it was asked for its fragment: a fragment that was
    /// read is kept, a failure leaves no trace.
    pub open spec fn asked(self) -> NluEntityView {
        NluEntityView { memo: self.fragment(), ..self }
    }

    /// The entity after a query for its date or its time, which asks for the
    /// fragment only where the entity holds a date and time.
    pub open spec fn queried(self) -> NluEntityView {
        if self.is_date_time() {
            self.asked()
        } else {
            self
        }
    }

    /// How often the value is read when the fragment is asked for `n` times
    /// in a row.
    pub open spec fn reads_in(self, n: nat) -> nat
        decreases n,
    {
        if n == 0 {
            0
        } else if self.reads_value() {
            1 + self.asked().reads_in((n - 1) as nat)
        } else {
            self.asked().reads_in((n - 1) as nat)
        }
    }

    /// The entity after `n` queries for its date or its time.
    pub open spec fn queried_times(self, n: nat) -> NluEntityView
        decreases n,
    {
        if n == 0 {
            self
        } else {
            self.queried().queried_times((n - 1) as nat)
        }
    }

    /// Whether the entity holds a date and time in which a year, a month or a
    /// day was recognized.
    pub open spec fn has_date(self) -> bool {
        &&& self.is_date_time()
        &&& self.fragment() matches Some(fragment)
        &&& fragment.has_date()
    }

    /// Whether the entity holds a date and time in which an hour or a minute
    /// was recognized.
    pub open spec fn has_time(self) -> bool {
        &&& self.is_date_time()
        &&& self.fragment() matches Some(fragment)
        &&& fragment.has_time()
    }

    /// The instant that the entity denotes at `now`, or why it denotes none.
    pub open spec fn date_time(self, now: InstantView) -> Result<InstantView, ErrorView> {
        if !self.is_date_time() {
            Err(ErrorView::NoDateTime(self.entity_type))
        } else {
            match self.fragment() {
                None => Err(ErrorView::ParseDateTime),
                Some(fragment) => match fragment.resolve(now) {
                    Ok(instant) => Ok(instant),
                    Err(field) => Err(ErrorView::BadDateCalc(field.name())),
                },
            }
        }
    }
}

/// A fragment is read once: after the fragment was asked for and found, it is
/// kept, asking again does not read the value and gives the same fragment
/// whatever the value `later` has become, and the entity changes no more.
/// After it was asked for and not found, the entity is as it was, so that
/// asking again reads the value again.
pub proof fn lemma_fragment_read_once(entity: NluEntityView, later: JsonView)
    ensures
        entity.fragment() is Some ==> {
            &&& !entity.asked().reads_value()
            &&& (NluEntityView { value: later, ..entity.asked() }).fragment() == entity.fragment()
            &&& entity.asked().asked() == entity.asked()
        },
        entity.fragment() is None ==> {
            &&& entity.asked() == entity
            &&& entity.asked().reads_value()
            &&& entity.asked().fragment() == fragment_of(entity.value)
        },
{
}

/// Asked for its fragment `n` times in a row, an entity that keeps a fragment
/// never reads its value; one that keeps none reads it once where the value
/// holds a fragment, and every time where it holds none.
pub proof fn lemma_reads_counted(entity: NluEntityView, n: nat)
    ensures
        entity.memo is Some ==> entity.reads_in(n) == 0,
        entity.memo is None && fragment_of(entity.value) is Some && n >= 1 ==> entity.reads_in(n)
            == 1,
        entity.fragment() is None ==> entity.reads_in(n) == n,
    decreases n,
{
    if n > 0 {
        lemma_reads_counted(entity.asked(), (n - 1) as nat);
    }
}

/// However often an entity was queried for its date or its time, the next
/// query answers as the first did.
pub proof fn lemma_queries_agree(entity: NluEntityView, n: nat)
    ensures
        entity.queried_times(n).has_date() == entity.has_date(),
        entity.queried_times(n).has_time() == entity.has_time(),
    decreases n,
{
    if n > 0 {
        lemma_queries_agree(entity.queried(), (n - 1) as nat);
    }
}

impl Default for NluEntity {
    /// An entity of no type and without a value, of which nothing is kept.
    fn default() -> (r: NluEntity)
        ensures
            r@.entity_type == Seq::<char>::empty(),
            r@.value is Null,
            r@.memo is None,
            r@.tokens.start == 0 && r@.tokens.end == 0,
    {
        NluEntity {
            tokens: NluEntityTokens { start: 0, end: 0 },
            entity_type: String::new(),
            value: JsonValue::Null,
            ydt: None,
        }
    }
}

impl View for NluEntity {
    type V = NluEntityView;

    closed spec fn view(&self) -> NluEntityView {
        NluEntityView {
            tokens: self.tokens,
            entity_type: self.entity_type@,
            value: self.value@,
            memo: self.ydt,
        }
    }
}

impl NluEntity {
    /// An entity of which nothing is kept yet.
    pub fn new(tokens: NluEntityTokens, entity_type: String, value: JsonValue) -> (r: NluEntity)
        ensures
            r@ == (NluEntityView { tokens, entity_type: entity_type@, value: value@, memo: None }),
    {
        NluEntity { tokens, entity_type, value, ydt: None }
    }

    /// The fragment that was read and kept, if any.
    pub fn cached(&self) -> (r: Option<YandexDateTime>)
        ensures
            r == self@.memo,
    {
        self.ydt
    }

    /// Whether the entity holds a date and time.
    pub fn is_date_time(&self) -> (r: bool)
        ensures
            r == self@.is_date_time(),
    {
        self.entity_type == "YANDEX.DATETIME".to_owned()
    }

    /// The fragment of the entity. A kept fragment is returned as it is and
    /// the value is not looked at. Otherwise the value is read: a fragment is
    /// kept and returned, a failure is returned and nothing is kept, so that
    /// the next call reads again.
    pub fn get_ydt(&mut self) -> (r: Result<YandexDateTime, Error>)
        ensures
            final(self)@ == old(self)@.asked(),
            match old(self)@.fragment() {
                Some(fragment) => r == Ok::<YandexDateTime, Error>(fragment),
                None => r matches Err(e) && e@ == ErrorView::ParseDateTime,
            },
    {
        match self.ydt {
            Some(kept) => Ok(kept),
            None => {
                let read = YandexDateTime::from_value(&self.value)?;
                self.ydt = Some(read);
                Ok(read)
            },
        }
    }

    /// Whether the entity holds a date and time in which a year, a month or a
    /// day was recognized. An entity of another type, or one whose value does
    /// not have the shape of a date and time, holds none.
    pub fn has_date(&mut self) -> (r: bool)
        ensures
            final(self)@ == old(self)@.queried(),
            r == old(self)@.has_date(),
    {
        if !self.is_date_time() {
            return false;
        }
        match self.get_ydt() {
            Ok(ydt) => ydt.has_date(),
            Err(_) => false,
        }
    }

    /// Whether the entity holds a date and time in which an hour or a minute
    /// was recognized. An entity of another type, or one whose value does not
    /// have the shape of a date and time, holds none.
    pub fn has_time(&mut self) -> (r: bool)
        ensures
            final(self)@ == old(self)@.queried(),
            r == old(self)@.has_time(),
    {
        if !self.is_date_time() {
            return false;
        }
        match self.get_ydt() {
            Ok(ydt) => ydt.has_time(),
            Err(_) => false,
        }
    }

    /// The instant that the entity denotes at `now`. An entity of another
    /// type is an error that holds that type.
    pub fn get_date_time(&mut self, now: Instant) -> (r: Result<Instant, Error>)
        ensures
            final(self)@ == old(self)@.queried(),
            match old(self)@.date_time(now@) {
                Ok(instant) => r matches Ok(t) && t@ == instant,
                Err(error) => r matches Err(e) && e@ == error,
            },
    {
        if !self.is_date_time() {
            return Err(Error::NoDateTime(self.entity_type.clone()));
        }
        self.get_ydt()?.date_time(now)
    }
}

} // verus!

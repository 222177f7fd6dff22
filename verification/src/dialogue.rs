//! The registration/edit dialogue engine: a finite-state machine that turns
//! each incoming message into a state transition, a reply, and possibly one
//! repository write.

use crate::api::is_category;
use crate::api::is_vocab;
use crate::db::{
    clone_user, get_user, has_recipient, insert_user, merged, recipient_index, update_user,
    with_id, Db, User, UserFilter, UserFilterV, UserV,
};
use crate::text::{all_digits, digits_val, parse_u32, split_on, str_eq, trim, trim_str};
use crate::text::{lemma_split_on_len, split_str};
use crate::time_of_day::{parse_time, time_of_input, valid_time_input, TimeOfDay};
use vstd::prelude::*;

verus! {

/// The trimmed comma-separated tokens of a category input.
pub open spec fn cat_tokens(s: Seq<char>) -> Seq<Seq<char>> {
    split_on(s, ',').map_values(|t: Seq<char>| trim(t))
}

/// Every token is a vocabulary category.
pub open spec fn all_vocab(toks: Seq<Seq<char>>) -> bool {
    forall|j: int| 0 <= j < toks.len() ==> is_vocab(toks[j])
}

/// `tok` is the first entry of `toks` that is not a vocabulary category.
pub open spec fn names_first_bad(tok: Seq<char>, toks: Seq<Seq<char>>) -> bool {
    exists|j: int|
        0 <= j < toks.len() && !is_vocab(toks[j]) && tok == toks[j] && (forall|k: int|
            0 <= k < j ==> is_vocab(toks[k]))
}

/// Parses a comma-separated category list: every token, trimmed, must be a
/// vocabulary member, exactly and case-sensitively. The whole input is
/// rejected on the first token that is not, and that token is returned.
pub fn parse_categories(s: &str) -> (r: Result<Vec<String>, String>)
    ensures
        r is Ok <==> all_vocab(cat_tokens(s@)),
        r matches Ok(v) ==> v.deep_view() == cat_tokens(s@) && v@.len() >= 1,
        r matches Err(e) ==> names_first_bad(e@, cat_tokens(s@)),
{
    let parts = split_str(s, ',');
    let n = parts.len();
    let mut out: Vec<String> = Vec::new();
    let mut j: usize = 0;
    while j < n
        invariant
            parts.deep_view() == split_on(s@, ','),
            n == parts@.len(),
            0 <= j <= n,
            out@.len() == j,
            forall|k: int| 0 <= k < j ==> out@[k]@ == cat_tokens(s@)[k],
            forall|k: int| 0 <= k < j ==> is_vocab(cat_tokens(s@)[k]),
        decreases n - j,
    {
        let tok = trim_str(parts[j].as_str());
        proof {
            assert(parts@[j as int]@ == split_on(s@, ',')[j as int]);
            assert(tok@ == cat_tokens(s@)[j as int]);
        }
        if !is_category(tok.as_str()) {
            proof {
                assert(names_first_bad(tok@, cat_tokens(s@)));
            }
            return Err(tok);
        }
        out.push(tok);
        j += 1;
    }
    proof {
        assert(out.deep_view() =~= cat_tokens(s@));
        lemma_split_on_len(s@, ',');
    }
    Ok(out)
}

/// A valid lookahead input: a positive integer that fits the field.
pub open spec fn valid_interval_input(s: Seq<char>) -> bool {
    s.len() > 0 && all_digits(s) && digits_val(s) <= u32::MAX && digits_val(s) > 0
}

/// The dialogue states: the onboarding path accumulates the validated
/// fields; each edit state waits for one replacement value.
pub enum State {
    Start,
    City,
    Categories { city: String },
    NotificationTime { city: String, categories: Vec<String> },
    EventsInterval { city: String, categories: Vec<String>, notification_time: TimeOfDay },
    EditCity,
    EditCategories,
    EditNotificationTime,
    EditEventsInterval,
}

/// The mathematical content of a dialogue state.
pub ghost enum StateV {
    Start,
    City,
    Categories { city: Seq<char> },
    NotificationTime { city: Seq<char>, categories: Seq<Seq<char>> },
    EventsInterval { city: Seq<char>, categories: Seq<Seq<char>>, notification_time: TimeOfDay },
    EditCity,
    EditCategories,
    EditNotificationTime,
    EditEventsInterval,
}

impl View for State {
    type V = StateV;

    open spec fn view(&self) -> StateV {
        match self {
            State::Start => StateV::Start,
            State::City => StateV::City,
            State::Categories { city } => StateV::Categories { city: city@ },
            State::NotificationTime { city, categories } => StateV::NotificationTime {
                city: city@,
                categories: categories.deep_view(),
            },
            State::EventsInterval { city, categories, notification_time } => {
                StateV::EventsInterval {
                    city: city@,
                    categories: categories.deep_view(),
                    notification_time: *notification_time,
                }
            },
            State::EditCity => StateV::EditCity,
            State::EditCategories => StateV::EditCategories,
            State::EditNotificationTime => StateV::EditNotificationTime,
            State::EditEventsInterval => StateV::EditEventsInterval,
        }
    }
}

impl StateV {
    /// What the machine has already validated on the way to this state.
    pub open spec fn wf(self) -> bool {
        match self {
            StateV::Categories { city } => city.len() > 0,
            StateV::NotificationTime { city, categories } => city.len() > 0 && categories.len()
                > 0 && all_vocab(categories),
            StateV::EventsInterval { city, categories, notification_time } => city.len() > 0
                && categories.len() > 0 && all_vocab(categories) && notification_time.wf(),
            _ => true,
        }
    }
}

/// What the engine wants said back after one message; the transport renders
/// and sends it.
pub enum Reply {
    /// Nothing to say.
    Silent,
    /// Prompt for the city.
    AskCity,
    /// Prompt for the category list.
    AskCategories,
    /// Prompt for the notification time.
    AskTime,
    /// Prompt for the lookahead interval in days.
    AskInterval,
    /// The named token is not a category.
    NotACategory { token: String },
    /// Onboarding finished: the persisted profile, echoed in full.
    Confirmation { user: User },
    /// The recipient's stored profile.
    ProfileInfo { user: User },
    /// The command list.
    HelpText,
    /// An edit command that named no editable parameter.
    UnknownParameter,
    /// The recipient has no profile yet.
    NoProfile,
    /// The conversation was abandoned.
    Cancelled,
    /// A single-field edit was persisted.
    Updated,
    /// A profile for this recipient already exists.
    AlreadyRegistered,
}

/// The command surface the transport hands over.
pub enum Command {
    Start,
    Help,
    Info,
    Edit { parameter: String },
}

/// The literal that abandons any conversation.
pub open spec fn cancel_text() -> Seq<char> {
    "/cancel"@
}

fn is_cancel(text: &str) -> (r: bool)
    ensures
        r == (text@ == cancel_text()),
{
    str_eq(text, "/cancel")
}

/// `/cancel`: back to the start; everything accumulated is discarded.
pub fn cmd_cancel() -> (r: State)
    ensures
        r is Start,
{
    State::Start
}

/// `/help`: the command list.
pub fn cmd_help() -> (r: Reply)
    ensures
        r is HelpText,
{
    Reply::HelpText
}

/// `/info`: the recipient's stored profile, or that none exists.
pub fn cmd_info(db: &Db, tg_id: u64) -> (r: Reply)
    requires
        db.wf(),
    ensures
        has_recipient(db@, tg_id) ==> (r matches Reply::ProfileInfo { user } && user@ == db@[
            recipient_index(db@, tg_id)
        ]),
        !has_recipient(db@, tg_id) ==> r is NoProfile,
{
    match get_user(db, tg_id) {
        Some(u) => Reply::ProfileInfo { user: u },
        None => Reply::NoProfile,
    }
}

/// `/start`: begins onboarding — or shows the profile this recipient has
/// already registered, so onboarding cannot run twice.
pub fn cmd_start(db: &Db, tg_id: u64) -> (r: (State, Reply))
    requires
        db.wf(),
    ensures
        !has_recipient(db@, tg_id) ==> r.0 is City && r.1 is AskCity,
        has_recipient(db@, tg_id) ==> r.0 is Start && (r.1 matches Reply::ProfileInfo { user }
            && user@ == db@[recipient_index(db@, tg_id)]),
        r.0@.wf(),
{
    match get_user(db, tg_id) {
        Some(u) => (State::Start, Reply::ProfileInfo { user: u }),
        None => (State::City, Reply::AskCity),
    }
}

/// Which edit state an `/edit` argument names.
pub open spec fn edit_state_for(p: Seq<char>) -> Option<StateV> {
    if p == "city"@ {
        Some(StateV::EditCity)
    } else if p == "categories"@ {
        Some(StateV::EditCategories)
    } else if p == "notification_time"@ {
        Some(StateV::EditNotificationTime)
    } else if p == "events_interval"@ {
        Some(StateV::EditEventsInterval)
    } else {
        None
    }
}

/// `/edit <parameter>`: enters the named field's edit state and prompts for
/// the new value; an unknown parameter changes nothing.
pub fn cmd_edit(parameter: &str) -> (r: (State, Reply))
    ensures
        parameter@ == "city"@ ==> r.0 is EditCity && r.1 is AskCity,
        parameter@ == "categories"@ ==> r.0 is EditCategories && r.1 is AskCategories,
        parameter@ == "notification_time"@ ==> r.0 is EditNotificationTime && r.1 is AskTime,
        parameter@ == "events_interval"@ ==> r.0 is EditEventsInterval && r.1 is AskInterval,
        edit_state_for(parameter@) is None ==> r.0 is Start && r.1 is UnknownParameter,
        r.0@.wf(),
{
    proof {
        reveal_strlit("city");
        reveal_strlit("categories");
        reveal_strlit("notification_time");
        reveal_strlit("events_interval");
        assert("city"@.len() == 4);
        assert("categories"@.len() == 10);
        assert("notification_time"@.len() == 17);
        assert("events_interval"@.len() == 15);
    }
    if str_eq(parameter, "city") {
        (State::EditCity, Reply::AskCity)
    } else if str_eq(parameter, "categories") {
        (State::EditCategories, Reply::AskCategories)
    } else if str_eq(parameter, "notification_time") {
        (State::EditNotificationTime, Reply::AskTime)
    } else if str_eq(parameter, "events_interval") {
        (State::EditEventsInterval, Reply::AskInterval)
    } else {
        (State::Start, Reply::UnknownParameter)
    }
}

/// One incoming command. As in the transport's dispatch, commands act only
/// from the start state; mid-conversation they are not routed here.
pub fn handle_command(db: &Db, tg_id: u64, cmd: Command) -> (r: (State, Reply))
    requires
        db.wf(),
    ensures
        r.0@.wf(),
        cmd is Help ==> r.0 is Start && r.1 is HelpText,
        cmd is Info ==> r.0 is Start,
        cmd is Start && !has_recipient(db@, tg_id) ==> r.0 is City && r.1 is AskCity,
        cmd is Start && has_recipient(db@, tg_id) ==> r.0 is Start && (r.1 matches
            Reply::ProfileInfo { user } && user@ == db@[recipient_index(db@, tg_id)]),
        cmd is Info && has_recipient(db@, tg_id) ==> (r.1 matches Reply::ProfileInfo { user }
            && user@ == db@[recipient_index(db@, tg_id)]),
        cmd is Info && !has_recipient(db@, tg_id) ==> r.1 is NoProfile,
        cmd matches Command::Edit { parameter } && parameter@ == "city"@ ==> r.0 is EditCity
            && r.1 is AskCity,
        cmd matches Command::Edit { parameter } && parameter@ == "categories"@ ==> r.0
            is EditCategories && r.1 is AskCategories,
        cmd matches Command::Edit { parameter } && parameter@ == "notification_time"@ ==> r.0
            is EditNotificationTime && r.1 is AskTime,
        cmd matches Command::Edit { parameter } && parameter@ == "events_interval"@ ==> r.0
            is EditEventsInterval && r.1 is AskInterval,
        cmd matches Command::Edit { parameter } && edit_state_for(parameter@) is None ==> r.0
            is Start && r.1 is UnknownParameter,
{
    match cmd {
        Command::Start => cmd_start(db, tg_id),
        Command::Help => (State::Start, cmd_help()),
        Command::Info => (State::Start, cmd_info(db, tg_id)),
        Command::Edit { parameter } => cmd_edit(parameter.as_str()),
    }
}

/// What one city message does: any non-empty text is the locality, taken
/// verbatim; empty text re-prompts.
pub open spec fn city_step(t: Seq<char>, r: (State, Reply)) -> bool {
    &&& t == cancel_text() ==> r.0 is Start && r.1 is Cancelled
    &&& t != cancel_text() && t.len() > 0 ==> (r.0 matches State::Categories { city } && city@
        == t) && r.1 is AskCategories
    &&& t != cancel_text() && t.len() == 0 ==> r.0 is City && r.1 is AskCity
}

/// What one category message does while onboarding: a fully valid list
/// advances to the time prompt; otherwise the first bad token is named and
/// the state re-entered, the city kept.
pub open spec fn categories_step(city: String, t: Seq<char>, r: (State, Reply)) -> bool {
    &&& t == cancel_text() ==> r.0 is Start && r.1 is Cancelled
    &&& t != cancel_text() && all_vocab(cat_tokens(t)) ==> (r.0 matches State::NotificationTime {
        city: c,
        categories,
    } && c == city && categories.deep_view() == cat_tokens(t)) && r.1 is AskTime
    &&& t != cancel_text() && !all_vocab(cat_tokens(t)) ==> (r.0 matches State::Categories {
        city: c,
    } && c == city) && (r.1 matches Reply::NotACategory { token } && names_first_bad(
        token@,
        cat_tokens(t),
    ))
}

/// What one time message does while onboarding: a valid `HH:MM` advances to
/// the interval prompt; anything else re-prompts in place.
pub open spec fn time_step(city: String, categories: Vec<String>, t: Seq<char>, r: (State, Reply)) -> bool {
    &&& t == cancel_text() ==> r.0 is Start && r.1 is Cancelled
    &&& t != cancel_text() && valid_time_input(t) ==> (r.0 matches State::EventsInterval {
        city: c,
        categories: cs,
        notification_time: nt,
    } && c == city && cs == categories && nt == time_of_input(t)) && r.1 is AskInterval
    &&& t != cancel_text() && !valid_time_input(t) ==> (r.0 matches State::NotificationTime {
        city: c,
        categories: cs,
    } && c == city && cs == categories) && r.1 is AskTime
}

/// What one interval message does, the last onboarding step: a positive
/// whole number of days completes the profile and persists it under a fresh
/// key; an already-registered recipient is refused rather than duplicated;
/// anything else re-prompts in place, writing nothing.
pub open spec fn interval_step(
    city: String,
    categories: Vec<String>,
    notification_time: TimeOfDay,
    tg_id: u64,
    db0: Seq<UserV>,
    db1: Seq<UserV>,
    t: Seq<char>,
    r: (State, Reply),
) -> bool {
    &&& t == cancel_text() ==> r.0 is Start && r.1 is Cancelled && db1 == db0
    &&& t != cancel_text() && !valid_interval_input(t) ==> (r.0 matches State::EventsInterval {
        city: c,
        categories: cs,
        notification_time: nt,
    } && c == city && cs == categories && nt == notification_time) && r.1 is AskInterval && db1
        == db0
    &&& t != cancel_text() && valid_interval_input(t) && !has_recipient(db0, tg_id) ==> r.0
        is Start && db1 == db0.push(
        with_id(
            assembled(tg_id, city@, categories.deep_view(), notification_time, digits_val(t) as u32),
            db0.len() as i64,
        ),
    ) && (r.1 matches Reply::Confirmation { user } && user@ == with_id(
        assembled(tg_id, city@, categories.deep_view(), notification_time, digits_val(t) as u32),
        db0.len() as i64,
    ))
    &&& t != cancel_text() && valid_interval_input(t) && has_recipient(db0, tg_id) ==> r.0
        is Start && r.1 is AlreadyRegistered && db1 == db0
}

/// City input while onboarding.
pub fn receive_city(text: &str) -> (r: (State, Reply))
    ensures
        r.0@.wf(),
        city_step(text@, r),
{
    if is_cancel(text) {
        return (cmd_cancel(), Reply::Cancelled);
    }
    if text.is_empty() {
        return (State::City, Reply::AskCity);
    }
    (State::Categories { city: text.to_owned() }, Reply::AskCategories)
}

/// Category input while onboarding: a fully valid list advances to the time
/// prompt; otherwise the first bad token is named and the state re-entered,
/// the city kept.
pub fn receive_categories(city: String, text: &str) -> (r: (State, Reply))
    requires
        city@.len() > 0,
    ensures
        r.0@.wf(),
        categories_step(city, text@, r),
{
    if is_cancel(text) {
        return (cmd_cancel(), Reply::Cancelled);
    }
    match parse_categories(text) {
        Ok(categories) => (State::NotificationTime { city, categories }, Reply::AskTime),
        Err(token) => (State::Categories { city }, Reply::NotACategory { token }),
    }
}

/// Time input while onboarding: a valid `HH:MM` advances to the interval
/// prompt; anything else re-prompts in place.
pub fn receive_notification_time(city: String, categories: Vec<String>, text: &str) -> (r: (
    State,
    Reply,
))
    requires
        city@.len() > 0,
        categories.deep_view().len() > 0,
        all_vocab(categories.deep_view()),
    ensures
        r.0@.wf(),
        time_step(city, categories, text@, r),
{
    if is_cancel(text) {
        return (cmd_cancel(), Reply::Cancelled);
    }
    match parse_time(text) {
        Some(notification_time) => (
            State::EventsInterval { city, categories, notification_time },
            Reply::AskInterval,
        ),
        None => (State::NotificationTime { city, categories }, Reply::AskTime),
    }
}

/// The profile onboarding assembles, before the repository keys it.
pub open spec fn assembled(
    tg_id: u64,
    city: Seq<char>,
    categories: Seq<Seq<char>>,
    t: TimeOfDay,
    days: u32,
) -> UserV {
    UserV {
        id: -1i64,
        tg_id,
        city,
        tags: categories,
        notification_time: t,
        events_interval: days,
    }
}

/// Interval input, the last onboarding step: a positive whole number of days
/// completes the profile, persists it, and echoes every field back; an
/// already-registered recipient is refused rather than duplicated.
pub fn receive_events_interval(
    city: String,
    categories: Vec<String>,
    notification_time: TimeOfDay,
    text: &str,
    tg_id: u64,
    db: &mut Db,
) -> (r: (State, Reply))
    requires
        old(db).wf(),
        old(db)@.len() < i64::MAX,
        city@.len() > 0,
        categories.deep_view().len() > 0,
        all_vocab(categories.deep_view()),
        notification_time.wf(),
    ensures
        final(db).wf(),
        r.0@.wf(),
        interval_step(
            city,
            categories,
            notification_time,
            tg_id,
            old(db)@,
            final(db)@,
            text@,
            r,
        ),
{
    if is_cancel(text) {
        return (cmd_cancel(), Reply::Cancelled);
    }
    let parsed = parse_u32(text);
    let valid = match parsed {
        Some(v) => v > 0,
        None => false,
    };
    if !valid {
        return (State::EventsInterval { city, categories, notification_time }, Reply::AskInterval);
    }
    let days = parsed.unwrap();
    let user = User {
        id: -1,
        tg_id,
        city,
        tags: categories,
        notification_time,
        events_interval: days,
    };
    let echo = clone_user(&user);
    match insert_user(db, user) {
        Ok(id) => {
            let mut echo = echo;
            echo.id = id;
            (State::Start, Reply::Confirmation { user: echo })
        },
        Err(_) => (State::Start, Reply::AlreadyRegistered),
    }
}

/// A partial update that replaces the locality alone.
pub open spec fn city_update(c: Seq<char>) -> UserFilterV {
    UserFilterV {
        id: None,
        tg_id: None,
        city: Some(c),
        tags: None,
        notification_time: None,
        events_interval: None,
    }
}

/// A partial update that replaces the category list alone.
pub open spec fn tags_update(ts: Seq<Seq<char>>) -> UserFilterV {
    UserFilterV {
        id: None,
        tg_id: None,
        city: None,
        tags: Some(ts),
        notification_time: None,
        events_interval: None,
    }
}

/// A partial update that replaces the notification time alone.
pub open spec fn time_update(t: TimeOfDay) -> UserFilterV {
    UserFilterV {
        id: None,
        tg_id: None,
        city: None,
        tags: None,
        notification_time: Some(t),
        events_interval: None,
    }
}

/// A partial update that replaces the lookahead interval alone.
pub open spec fn interval_update(days: u32) -> UserFilterV {
    UserFilterV {
        id: None,
        tg_id: None,
        city: None,
        tags: None,
        notification_time: None,
        events_interval: Some(days),
    }
}

/// The stored profile after a single-field edit for this recipient.
pub open spec fn edited(users: Seq<UserV>, tg_id: u64, f: UserFilterV) -> Seq<UserV> {
    users.update(recipient_index(users, tg_id), merged(users[recipient_index(users, tg_id)], f))
}

/// What one city-edit message does: one non-empty input replaces the stored
/// locality and ends the edit; a recipient without a profile is told so, not
/// given one.
pub open spec fn edit_city_step(
    tg_id: u64,
    db0: Seq<UserV>,
    db1: Seq<UserV>,
    t: Seq<char>,
    r: (State, Reply),
) -> bool {
    &&& t == cancel_text() ==> r.0 is Start && r.1 is Cancelled && db1 == db0
    &&& t != cancel_text() && t.len() == 0 ==> r.0 is EditCity && r.1 is AskCity && db1 == db0
    &&& t != cancel_text() && t.len() > 0 && has_recipient(db0, tg_id) ==> r.0 is Start && r.1
        is Updated && db1 == edited(db0, tg_id, city_update(t))
    &&& t != cancel_text() && t.len() > 0 && !has_recipient(db0, tg_id) ==> r.0 is Start && r.1
        is NoProfile && db1 == db0
}

/// What one category-edit message does: a fully valid list replaces the
/// stored one; otherwise the first bad token is named and the state kept.
pub open spec fn edit_categories_step(
    tg_id: u64,
    db0: Seq<UserV>,
    db1: Seq<UserV>,
    t: Seq<char>,
    r: (State, Reply),
) -> bool {
    &&& t == cancel_text() ==> r.0 is Start && r.1 is Cancelled && db1 == db0
    &&& t != cancel_text() && !all_vocab(cat_tokens(t)) ==> r.0 is EditCategories && (r.1 matches
        Reply::NotACategory { token } && names_first_bad(token@, cat_tokens(t))) && db1 == db0
    &&& t != cancel_text() && all_vocab(cat_tokens(t)) && has_recipient(db0, tg_id) ==> r.0
        is Start && r.1 is Updated && db1 == edited(db0, tg_id, tags_update(cat_tokens(t)))
    &&& t != cancel_text() && all_vocab(cat_tokens(t)) && !has_recipient(db0, tg_id) ==> r.0
        is Start && r.1 is NoProfile && db1 == db0
}

/// What one time-edit message does: a valid `HH:MM` replaces the stored
/// notification time; anything else re-prompts in place.
pub open spec fn edit_time_step(
    tg_id: u64,
    db0: Seq<UserV>,
    db1: Seq<UserV>,
    t: Seq<char>,
    r: (State, Reply),
) -> bool {
    &&& t == cancel_text() ==> r.0 is Start && r.1 is Cancelled && db1 == db0
    &&& t != cancel_text() && !valid_time_input(t) ==> r.0 is EditNotificationTime && r.1
        is AskTime && db1 == db0
    &&& t != cancel_text() && valid_time_input(t) && has_recipient(db0, tg_id) ==> r.0 is Start
        && r.1 is Updated && db1 == edited(db0, tg_id, time_update(time_of_input(t)))
    &&& t != cancel_text() && valid_time_input(t) && !has_recipient(db0, tg_id) ==> r.0 is Start
        && r.1 is NoProfile && db1 == db0
}

/// What one interval-edit message does: a positive whole number of days
/// replaces the stored lookahead; anything else re-prompts in place.
pub open spec fn edit_interval_step(
    tg_id: u64,
    db0: Seq<UserV>,
    db1: Seq<UserV>,
    t: Seq<char>,
    r: (State, Reply),
) -> bool {
    &&& t == cancel_text() ==> r.0 is Start && r.1 is Cancelled && db1 == db0
    &&& t != cancel_text() && !valid_interval_input(t) ==> r.0 is EditEventsInterval && r.1
        is AskInterval && db1 == db0
    &&& t != cancel_text() && valid_interval_input(t) && has_recipient(db0, tg_id) ==> r.0
        is Start && r.1 is Updated && db1 == edited(
        db0,
        tg_id,
        interval_update(digits_val(t) as u32),
    )
    &&& t != cancel_text() && valid_interval_input(t) && !has_recipient(db0, tg_id) ==> r.0
        is Start && r.1 is NoProfile && db1 == db0
}

/// A new city for an existing profile.
pub fn receive_edit_city(text: &str, tg_id: u64, db: &mut Db) -> (r: (State, Reply))
    requires
        old(db).wf(),
    ensures
        final(db).wf(),
        r.0@.wf(),
        edit_city_step(tg_id, old(db)@, final(db)@, text@, r),
{
    if is_cancel(text) {
        return (cmd_cancel(), Reply::Cancelled);
    }
    if text.is_empty() {
        return (State::EditCity, Reply::AskCity);
    }
    let filter = UserFilter {
        id: None,
        tg_id: None,
        city: Some(text.to_owned()),
        tags: None,
        notification_time: None,
        events_interval: None,
    };
    match update_user(db, filter, tg_id) {
        Ok(_) => (State::Start, Reply::Updated),
        Err(_) => (State::Start, Reply::NoProfile),
    }
}

/// A new category list for an existing profile: a fully valid list persists
/// it; otherwise the first bad token is named and the state re-entered.
pub fn receive_edit_categories(text: &str, tg_id: u64, db: &mut Db) -> (r: (State, Reply))
    requires
        old(db).wf(),
    ensures
        final(db).wf(),
        r.0@.wf(),
        edit_categories_step(tg_id, old(db)@, final(db)@, text@, r),
{
    if is_cancel(text) {
        return (cmd_cancel(), Reply::Cancelled);
    }
    match parse_categories(text) {
        Ok(categories) => {
            let filter = UserFilter {
                id: None,
                tg_id: None,
                city: None,
                tags: Some(categories),
                notification_time: None,
                events_interval: None,
            };
            match update_user(db, filter, tg_id) {
                Ok(_) => (State::Start, Reply::Updated),
                Err(_) => (State::Start, Reply::NoProfile),
            }
        },
        Err(token) => (State::EditCategories, Reply::NotACategory { token }),
    }
}

/// A new notification time for an existing profile: a valid `HH:MM` persists
/// it; anything else re-prompts in place.
pub fn receive_edit_notification_time(text: &str, tg_id: u64, db: &mut Db) -> (r: (State, Reply))
    requires
        old(db).wf(),
    ensures
        final(db).wf(),
        r.0@.wf(),
        edit_time_step(tg_id, old(db)@, final(db)@, text@, r),
{
    if is_cancel(text) {
        return (cmd_cancel(), Reply::Cancelled);
    }
    match parse_time(text) {
        Some(t) => {
            let filter = UserFilter {
                id: None,
                tg_id: None,
                city: None,
                tags: None,
                notification_time: Some(t),
                events_interval: None,
            };
            match update_user(db, filter, tg_id) {
                Ok(_) => (State::Start, Reply::Updated),
                Err(_) => (State::Start, Reply::NoProfile),
            }
        },
        None => (State::EditNotificationTime, Reply::AskTime),
    }
}

/// A new lookahead interval for an existing profile: a positive whole number
/// of days persists it; anything else re-prompts in place.
pub fn receive_edit_events_interval(text: &str, tg_id: u64, db: &mut Db) -> (r: (State, Reply))
    requires
        old(db).wf(),
    ensures
        final(db).wf(),
        r.0@.wf(),
        edit_interval_step(tg_id, old(db)@, final(db)@, text@, r),
{
    if is_cancel(text) {
        return (cmd_cancel(), Reply::Cancelled);
    }
    let parsed = parse_u32(text);
    let valid = match parsed {
        Some(v) => v > 0,
        None => false,
    };
    if !valid {
        return (State::EditEventsInterval, Reply::AskInterval);
    }
    let days = parsed.unwrap();
    let filter = UserFilter {
        id: None,
        tg_id: None,
        city: None,
        tags: None,
        notification_time: None,
        events_interval: Some(days),
    };
    match update_user(db, filter, tg_id) {
        Ok(_) => (State::Start, Reply::Updated),
        Err(_) => (State::Start, Reply::NoProfile),
    }
}

/// The prompt repeated when a message carries no text.
fn reprompt_for(state: &State) -> (r: Reply) {
    match state {
        State::Start => Reply::Silent,
        State::City => Reply::AskCity,
        State::Categories { .. } => Reply::AskCategories,
        State::NotificationTime { .. } => Reply::AskTime,
        State::EventsInterval { .. } => Reply::AskInterval,
        State::EditCity => Reply::AskCity,
        State::EditCategories => Reply::AskCategories,
        State::EditNotificationTime => Reply::AskTime,
        State::EditEventsInterval => Reply::AskInterval,
    }
}

/// One incoming text message, from any state: the transition table in one
/// place. A message without text re-prompts without changing state or store;
/// `/cancel` from any non-start state returns to the start and discards
/// everything accumulated, writing nothing; plain text at the start does
/// nothing, since only commands act there.
pub fn handle_text(state: State, tg_id: u64, text: Option<&str>, db: &mut Db) -> (r: (
    State,
    Reply,
))
    requires
        old(db).wf(),
        old(db)@.len() < i64::MAX,
        state@.wf(),
    ensures
        final(db).wf(),
        r.0@.wf(),
        text is None ==> r.0@ == state@ && final(db)@ == old(db)@,
        (text matches Some(t) && t@ == cancel_text() && !(state is Start)) ==> r.0 is Start
            && r.1 is Cancelled && final(db)@ == old(db)@,
        state is Start ==> r.0 is Start && final(db)@ == old(db)@,
        state is City || state is Categories || state is NotificationTime ==> final(db)@ == old(db)@,
        state is City ==> (text matches Some(t) ==> city_step(t@, r)),
        state matches State::Categories { city } ==> (text matches Some(t) ==> categories_step(
            city,
            t@,
            r,
        )),
        state matches State::NotificationTime { city, categories } ==> (text matches Some(t)
            ==> time_step(city, categories, t@, r)),
        state matches State::EventsInterval { city, categories, notification_time } ==> (text
            matches Some(t) ==> interval_step(
            city,
            categories,
            notification_time,
            tg_id,
            old(db)@,
            final(db)@,
            t@,
            r,
        )),
        state is EditCity ==> (text matches Some(t) ==> edit_city_step(
            tg_id,
            old(db)@,
            final(db)@,
            t@,
            r,
        )),
        state is EditCategories ==> (text matches Some(t) ==> edit_categories_step(
            tg_id,
            old(db)@,
            final(db)@,
            t@,
            r,
        )),
        state is EditNotificationTime ==> (text matches Some(t) ==> edit_time_step(
            tg_id,
            old(db)@,
            final(db)@,
            t@,
            r,
        )),
        state is EditEventsInterval ==> (text matches Some(t) ==> edit_interval_step(
            tg_id,
            old(db)@,
            final(db)@,
            t@,
            r,
        )),
{
    let t = match text {
        Some(t) => t,
        None => {
            let reply = reprompt_for(&state);
            return (state, reply);
        },
    };
    match state {
        State::Start => (State::Start, Reply::Silent),
        State::City => receive_city(t),
        State::Categories { city } => receive_categories(city, t),
        State::NotificationTime { city, categories } => receive_notification_time(
            city,
            categories,
            t,
        ),
        State::EventsInterval { city, categories, notification_time } => receive_events_interval(
            city,
            categories,
            notification_time,
            t,
            tg_id,
            db,
        ),
        State::EditCity => receive_edit_city(t, tg_id, db),
        State::EditCategories => receive_edit_categories(t, tg_id, db),
        State::EditNotificationTime => receive_edit_notification_time(t, tg_id, db),
        State::EditEventsInterval => receive_edit_events_interval(t, tg_id, db),
    }
}

} // verus!

//! The request that lists the tickets of an event.

use crate::text::{decimal, decimal_string};
use vstd::prelude::*;
use vstd::string::StringExecFns;

verus! {

/// A state of a ticket to search for.
#[derive(Clone, Copy, Debug, PartialEq)]
pub enum State {
    Complete,
    Incomplete,
    Unassigned,
    Void,
    ChangesAllowed,
    ChangesLocked,
    Archived,
}

/// A kind of ticket to search for.
#[derive(Clone, Copy, Debug, PartialEq)]
pub enum Type {
    Manual,
    Standard,
}

/// The direction in which a listing is sorted.
#[derive(Clone, Copy, Debug, PartialEq)]
pub enum Direction {
    Ascending,
    Descending,
}

/// How a date of a ticket is to compare with a given one.
#[derive(Clone, Copy, Debug, PartialEq)]
pub enum Operator {
    Gt,
    Gte,
    Lt,
    Lte,
}

impl State {
    /// The word by which the service knows this state.
    pub open spec fn text(self) -> Seq<char> {
        match self {
            State::Complete => "complete"@,
            State::Incomplete => "incomplete"@,
            State::Unassigned => "unassigned"@,
            State::Void => "void"@,
            State::ChangesAllowed => "changes_allowed"@,
            State::ChangesLocked => "changes_locked"@,
            State::Archived => "archived"@,
        }
    }

    /// The word by which the service knows this state.
    pub fn to_string(&self) -> (text: String)
        ensures
            text@ == self.text(),
    {
        match self {
            State::Complete => String::from_str("complete"),
            State::Incomplete => String::from_str("incomplete"),
            State::Unassigned => String::from_str("unassigned"),
            State::Void => String::from_str("void"),
            State::ChangesAllowed => String::from_str("changes_allowed"),
            State::ChangesLocked => String::from_str("changes_locked"),
            State::Archived => String::from_str("archived"),
        }
    }
}

impl Type {
    /// The word by which the service knows this kind.
    pub open spec fn text(self) -> Seq<char> {
        match self {
            Type::Manual => "manual"@,
            Type::Standard => "standard"@,
        }
    }

    /// The word by which the service knows this kind.
    pub fn to_string(&self) -> (text: String)
        ensures
            text@ == self.text(),
    {
        match self {
            Type::Manual => String::from_str("manual"),
            Type::Standard => String::from_str("standard"),
        }
    }
}

impl Direction {
    /// The word by which the service knows this direction.
    pub open spec fn text(self) -> Seq<char> {
        match self {
            Direction::Ascending => "asc"@,
            Direction::Descending => "desc"@,
        }
    }

    /// The word by which the service knows this direction.
    pub fn to_string(&self) -> (text: String)
        ensures
            text@ == self.text(),
    {
        match self {
            Direction::Ascending => String::from_str("asc"),
            Direction::Descending => String::from_str("desc"),
        }
    }
}

impl Operator {
    /// The word by which the service knows this comparison.
    pub open spec fn text(self) -> Seq<char> {
        match self {
            Operator::Gt => "gt"@,
            Operator::Gte => "gte"@,
            Operator::Lt => "lt"@,
            Operator::Lte => "lte"@,
        }
    }

    /// The word by which the service knows this comparison.
    pub fn to_string(&self) -> (text: String)
        ensures
            text@ == self.text(),
    {
        match self {
            Operator::Gt => String::from_str("gt"),
            Operator::Gte => String::from_str("gte"),
            Operator::Lt => String::from_str("lt"),
            Operator::Lte => String::from_str("lte"),
        }
    }
}

/// What the crate `chrono` writes for the instant that lies `seconds`
/// and `nanoseconds` after the beginning of 1970 in universal time, as
/// RFC 3339 has it; `None` where it knows no such instant.
pub uninterp spec fn rfc3339_text(seconds: i64, nanoseconds: u32) -> Option<Seq<char>>;

/// `chrono::DateTime::from_timestamp`, then `DateTime::to_rfc3339` on
/// what it gives.
///
/// The result is named, not described: nothing where the first call
/// finds the numbers out of range, else the text of the second.
#[verifier::external_body]
fn rfc3339(seconds: i64, nanoseconds: u32) -> (text: Option<String>)
    ensures
        text.deep_view() == rfc3339_text(seconds, nanoseconds),
{
    match chrono::DateTime::from_timestamp(seconds, nanoseconds) {
        Some(instant) => Some(instant.to_rfc3339()),
        None => None,
    }
}

/// A date to compare a date of a ticket with: an instant in universal
/// time, kept with the text that writes it as RFC 3339 has it.
#[derive(Debug, PartialEq)]
pub struct FilterDate {
    operator: Operator,
    seconds: i64,
    nanoseconds: u32,
    date_time: String,
}

/// A `FilterDate`, its text read as a sequence of characters.
pub struct FilterDateView {
    /// How the date of a ticket is to compare.
    pub operator: Operator,
    /// The whole seconds of the instant since the beginning of 1970.
    pub seconds: i64,
    /// The nanoseconds of the instant past its whole second.
    pub nanoseconds: u32,
    /// The instant as text.
    pub date_time: Seq<char>,
}

impl FilterDateView {
    /// Whether the text is the one that writes the instant.
    pub open spec fn dated(self) -> bool {
        rfc3339_text(self.seconds, self.nanoseconds) == Some(self.date_time)
    }
}

impl View for FilterDate {
    type V = FilterDateView;

    closed spec fn view(&self) -> FilterDateView {
        FilterDateView {
            operator: self.operator,
            seconds: self.seconds,
            nanoseconds: self.nanoseconds,
            date_time: self.date_time@,
        }
    }
}

impl DeepView for FilterDate {
    type V = FilterDateView;

    open spec fn deep_view(&self) -> FilterDateView {
        self@
    }
}

impl FilterDate {
    #[verifier::type_invariant]
    spec fn text_writes_instant(self) -> bool {
        rfc3339_text(self.seconds, self.nanoseconds) == Some(self.date_time@)
    }

    /// A comparison with the instant that lies `seconds` and
    /// `nanoseconds` after the beginning of 1970 in universal time;
    /// `None` where there is no such instant.
    pub fn new(operator: Operator, seconds: i64, nanoseconds: u32) -> (filter: Option<FilterDate>)
        ensures
            match filter {
                Some(filter) => {
                    &&& filter@.operator == operator
                    &&& filter@.seconds == seconds
                    &&& filter@.nanoseconds == nanoseconds
                    &&& filter@.dated()
                },
                None => rfc3339_text(seconds, nanoseconds) is None,
            },
    {
        match rfc3339(seconds, nanoseconds) {
            Some(date_time) => Some(FilterDate { operator, seconds, nanoseconds, date_time }),
            None => None,
        }
    }

    /// How the date of a ticket is to compare.
    pub fn operator(&self) -> (operator: Operator)
        ensures
            operator == self@.operator,
    {
        self.operator
    }

    /// The instant as text, written as RFC 3339 has it.
    pub fn date_time(&self) -> (text: &String)
        ensures
            text@ == self@.date_time,
            self@.dated(),
    {
        proof {
            use_type_invariant(self);
        }
        &self.date_time
    }
}

/// A request for the tickets of an event, with what narrows it down.
pub struct TicketsHandler {
    base_url: String,
    account: String,
    event: String,
    sort: Option<String>,
    direction: Option<Direction>,
    states: Option<Vec<State>>,
    types: Option<Vec<Type>>,
    activity_ids: Option<Vec<u32>>,
    release_ids: Option<Vec<String>>,
    created_at: Option<Vec<FilterDate>>,
    updated_at: Option<Vec<FilterDate>>,
}

/// A `TicketsHandler` as mathematics.
pub struct TicketsHandlerView {
    pub base_url: Seq<char>,
    pub account: Seq<char>,
    pub event: Seq<char>,
    pub sort: Option<Seq<char>>,
    pub direction: Option<Direction>,
    pub states: Option<Seq<State>>,
    pub types: Option<Seq<Type>>,
    pub activity_ids: Option<Seq<u32>>,
    pub release_ids: Option<Seq<Seq<char>>>,
    pub created_at: Option<Seq<FilterDateView>>,
    pub updated_at: Option<Seq<FilterDateView>>,
}

/// One parameter of a query: its name and its value.
pub type Pair = (Seq<char>, Seq<char>);

/// What goes over the wire for one page of a listing.
#[derive(Debug, PartialEq)]
pub struct Request {
    /// The address to ask.
    pub url: String,
    /// The parameters of the query, in order.
    pub query: Vec<(String, String)>,
}

/// The items of `list`, or none where there is no list.
pub open spec fn listed<T>(list: Option<Seq<T>>) -> Seq<T> {
    match list {
        Some(items) => items,
        None => Seq::empty(),
    }
}

/// The parameter that compares the date called `field` of a ticket.
pub open spec fn date_pair(field: Seq<char>, filter: FilterDateView) -> Pair {
    ("?search["@ + field + "]["@ + filter.operator.text() + "]"@, filter.date_time)
}

impl TicketsHandlerView {
    /// The address of the listing.
    pub open spec fn url(self) -> Seq<char> {
        self.base_url + "/"@ + self.account + "/"@ + self.event + "/tickets"@
    }

    /// The parameters that narrow the listing down, and the page: the
    /// sort key, the direction, then one parameter for each state, kind,
    /// activity, release and date asked for, and the page last.
    pub open spec fn query(self, page: u32) -> Seq<Pair> {
        listed(
            match self.sort {
                Some(sort) => Some(seq![("search[sort]"@, sort)]),
                None => None,
            },
        ) + listed(
            match self.direction {
                Some(direction) => Some(seq![("search[direction]"@, direction.text())]),
                None => None,
            },
        ) + listed(self.states).map_values(|state: State| ("search[states][]"@, state.text()))
            + listed(self.types).map_values(|kind: Type| ("search[types][]"@, kind.text()))
            + listed(self.activity_ids).map_values(
            |id: u32| ("search[activity_ids][]"@, decimal(id as nat)),
        ) + listed(self.release_ids).map_values(
            |id: Seq<char>| ("search[release_ids][]"@, id),
        ) + listed(self.created_at).map_values(
            |filter: FilterDateView| date_pair("created_at"@, filter),
        ) + listed(self.updated_at).map_values(
            |filter: FilterDateView| date_pair("updated_at"@, filter),
        ) + seq![("page"@, decimal(page as nat))]
    }
}

impl View for TicketsHandler {
    type V = TicketsHandlerView;

    closed spec fn view(&self) -> TicketsHandlerView {
        TicketsHandlerView {
            base_url: self.base_url@,
            account: self.account@,
            event: self.event@,
            sort: self.sort.deep_view(),
            direction: self.direction,
            states: match self.states {
                Some(states) => Some(states@),
                None => None,
            },
            types: match self.types {
                Some(types) => Some(types@),
                None => None,
            },
            activity_ids: match self.activity_ids {
                Some(ids) => Some(ids@),
                None => None,
            },
            release_ids: self.release_ids.deep_view(),
            created_at: self.created_at.deep_view(),
            updated_at: self.updated_at.deep_view(),
        }
    }
}

fn pair(name: &str, value: String) -> (pair: (String, String))
    ensures
        pair.deep_view() == (name@, value@),
{
    (String::from_str(name), value)
}

fn date_name(field: &str, operator: &Operator) -> (name: String)
    ensures
        name@ == "?search["@ + field@ + "]["@ + operator.text() + "]"@,
{
    let mut name = String::from_str("?search[");
    name.append(field);
    name.append("][");
    name.append(operator.to_string().as_str());
    name.append("]");
    name
}

/// The items of `list` as a view has them, or none where there is no
/// list.
pub open spec fn listed_in<T>(list: Option<Vec<T>>) -> Seq<T> {
    match list {
        Some(items) => items@,
        None => Seq::empty(),
    }
}

fn push_states(query: &mut Vec<(String, String)>, states: &Option<Vec<State>>)
    ensures
        final(query).deep_view() == old(query).deep_view() + listed_in(*states).map_values(
            |state: State| ("search[states][]"@, state.text()),
        ),
{
    let ghost part = |state: State| ("search[states][]"@, state.text());
    if let Some(states) = states {
        let mut i: usize = 0;
        assert(states@.take(0).map_values(part) =~= Seq::empty());
        assert(query.deep_view() + Seq::<Pair>::empty() =~= query.deep_view());
        while i < states.len()
            invariant
                i <= states.len(),
                part == |state: State| ("search[states][]"@, state.text()),
                query.deep_view() == old(query).deep_view() + states@.take(i as int).map_values(
                    part,
                ),
            decreases states.len() - i,
        {
            let ghost before = query.deep_view();
            query.push(pair("search[states][]", states[i].to_string()));
            assert(query.deep_view() =~= before.push(part(states@[i as int])));
            assert(states@.take(i + 1).map_values(part) =~= states@.take(i as int).map_values(
                part,
            ).push(part(states@[i as int])));
            i += 1;
        }
        assert(states@.take(states.len() as int) =~= states@);
    } else {
        assert(Seq::<State>::empty().map_values(part) =~= Seq::empty());
        assert(query.deep_view() + Seq::<Pair>::empty() =~= query.deep_view());
    }
}

fn push_types(query: &mut Vec<(String, String)>, types: &Option<Vec<Type>>)
    ensures
        final(query).deep_view() == old(query).deep_view() + listed_in(*types).map_values(
            |kind: Type| ("search[types][]"@, kind.text()),
        ),
{
    let ghost part = |kind: Type| ("search[types][]"@, kind.text());
    if let Some(types) = types {
        let mut i: usize = 0;
        assert(types@.take(0).map_values(part) =~= Seq::empty());
        assert(query.deep_view() + Seq::<Pair>::empty() =~= query.deep_view());
        while i < types.len()
            invariant
                i <= types.len(),
                part == |kind: Type| ("search[types][]"@, kind.text()),
                query.deep_view() == old(query).deep_view() + types@.take(i as int).map_values(
                    part,
                ),
            decreases types.len() - i,
        {
            let ghost before = query.deep_view();
            query.push(pair("search[types][]", types[i].to_string()));
            assert(query.deep_view() =~= before.push(part(types@[i as int])));
            assert(types@.take(i + 1).map_values(part) =~= types@.take(i as int).map_values(
                part,
            ).push(part(types@[i as int])));
            i += 1;
        }
        assert(types@.take(types.len() as int) =~= types@);
    } else {
        assert(Seq::<Type>::empty().map_values(part) =~= Seq::empty());
        assert(query.deep_view() + Seq::<Pair>::empty() =~= query.deep_view());
    }
}

fn push_activity_ids(query: &mut Vec<(String, String)>, ids: &Option<Vec<u32>>)
    ensures
        final(query).deep_view() == old(query).deep_view() + listed_in(*ids).map_values(
            |id: u32| ("search[activity_ids][]"@, decimal(id as nat)),
        ),
{
    let ghost part = |id: u32| ("search[activity_ids][]"@, decimal(id as nat));
    if let Some(ids) = ids {
        let mut i: usize = 0;
        assert(ids@.take(0).map_values(part) =~= Seq::empty());
        assert(query.deep_view() + Seq::<Pair>::empty() =~= query.deep_view());
        while i < ids.len()
            invariant
                i <= ids.len(),
                part == |id: u32| ("search[activity_ids][]"@, decimal(id as nat)),
                query.deep_view() == old(query).deep_view() + ids@.take(i as int).map_values(part),
            decreases ids.len() - i,
        {
            let ghost before = query.deep_view();
            query.push(pair("search[activity_ids][]", decimal_string(ids[i] as u64)));
            assert(query.deep_view() =~= before.push(part(ids@[i as int])));
            assert(ids@.take(i + 1).map_values(part) =~= ids@.take(i as int).map_values(
                part,
            ).push(part(ids@[i as int])));
            i += 1;
        }
        assert(ids@.take(ids.len() as int) =~= ids@);
    } else {
        assert(Seq::<u32>::empty().map_values(part) =~= Seq::empty());
        assert(query.deep_view() + Seq::<Pair>::empty() =~= query.deep_view());
    }
}

fn push_release_ids(query: &mut Vec<(String, String)>, ids: &Option<Vec<String>>)
    ensures
        final(query).deep_view() == old(query).deep_view() + listed(ids.deep_view()).map_values(
            |id: Seq<char>| ("search[release_ids][]"@, id),
        ),
{
    let ghost part = |id: Seq<char>| ("search[release_ids][]"@, id);
    if let Some(ids) = ids {
        let mut i: usize = 0;
        assert(ids.deep_view().take(0).map_values(part) =~= Seq::empty());
        assert(query.deep_view() + Seq::<Pair>::empty() =~= query.deep_view());
        while i < ids.len()
            invariant
                i <= ids.len(),
                part == |id: Seq<char>| ("search[release_ids][]"@, id),
                query.deep_view() == old(query).deep_view() + ids.deep_view().take(
                    i as int,
                ).map_values(part),
            decreases ids.len() - i,
        {
            let ghost before = query.deep_view();
            query.push(pair("search[release_ids][]", ids[i].clone()));
            assert(query.deep_view() =~= before.push(part(ids.deep_view()[i as int])));
            assert(ids.deep_view().take(i + 1).map_values(part) =~= ids.deep_view().take(
                i as int,
            ).map_values(part).push(part(ids.deep_view()[i as int])));
            i += 1;
        }
        assert(ids.deep_view().take(ids.len() as int) =~= ids.deep_view());
    } else {
        assert(Seq::<Seq<char>>::empty().map_values(part) =~= Seq::empty());
        assert(query.deep_view() + Seq::<Pair>::empty() =~= query.deep_view());
    }
}

fn push_dates(query: &mut Vec<(String, String)>, field: &str, dates: &Option<Vec<FilterDate>>)
    ensures
        final(query).deep_view() == old(query).deep_view() + listed(dates.deep_view()).map_values(
            |filter: FilterDateView| date_pair(field@, filter),
        ),
{
    let ghost part = |filter: FilterDateView| date_pair(field@, filter);
    match dates {
        Some(dates) => {
            let mut i: usize = 0;
            while i < dates.len()
                invariant
                    i <= dates.len(),
                    part == |filter: FilterDateView| date_pair(field@, filter),
                    query.deep_view() == old(query).deep_view() + dates.deep_view().take(
                        i as int,
                    ).map_values(part),
                decreases dates.len() - i,
            {
                let ghost before = query.deep_view();
                let date = &dates[i];
                let added = pair(date_name(field, &date.operator).as_str(), date.date_time.clone());
                query.push(added);
                assert(query.deep_view() =~= before.push(part(date@)));
                assert(query.deep_view() =~= old(query).deep_view() + dates.deep_view().take(
                    i + 1,
                ).map_values(part));
                i += 1;
            }
        },
        None => {},
    }
}

impl TicketsHandler {
    /// A request for all tickets of `event` of `account`, at the service
    /// found under `base_url`.
    pub fn new(base_url: &str, account: &str, event: &str) -> (handler: TicketsHandler)
        ensures
            handler@ == (TicketsHandlerView {
                base_url: base_url@,
                account: account@,
                event: event@,
                sort: None,
                direction: None,
                states: None,
                types: None,
                activity_ids: None,
                release_ids: None,
                created_at: None,
                updated_at: None,
            }),
    {
        TicketsHandler {
            base_url: String::from_str(base_url),
            account: String::from_str(account),
            event: String::from_str(event),
            sort: None,
            direction: None,
            states: None,
            types: None,
            activity_ids: None,
            release_ids: None,
            created_at: None,
            updated_at: None,
        }
    }

    /// Sorts the listing by `sort`.
    pub fn sort(self, sort: &str) -> (handler: TicketsHandler)
        ensures
            handler@ == (TicketsHandlerView { sort: Some(sort@), ..self@ }),
    {
        let mut handler = self;
        handler.sort = Some(String::from_str(sort));
        handler
    }

    /// Sorts the listing in `direction`.
    pub fn direction(self, direction: Direction) -> (handler: TicketsHandler)
        ensures
            handler@ == (TicketsHandlerView { direction: Some(direction), ..self@ }),
    {
        let mut handler = self;
        handler.direction = Some(direction);
        handler
    }

    /// Lists only tickets in one of `states`.
    pub fn states(self, states: Vec<State>) -> (handler: TicketsHandler)
        ensures
            handler@ == (TicketsHandlerView { states: Some(states@), ..self@ }),
    {
        let mut handler = self;
        handler.states = Some(states);
        handler
    }

    /// Lists only tickets of one of `types`.
    pub fn types(self, types: Vec<Type>) -> (handler: TicketsHandler)
        ensures
            handler@ == (TicketsHandlerView { types: Some(types@), ..self@ }),
    {
        let mut handler = self;
        handler.types = Some(types);
        handler
    }

    /// Lists only tickets for one of the activities `activity_ids`.
    pub fn activity_ids(self, activity_ids: Vec<u32>) -> (handler: TicketsHandler)
        ensures
            handler@ == (TicketsHandlerView { activity_ids: Some(activity_ids@), ..self@ }),
    {
        let mut handler = self;
        handler.activity_ids = Some(activity_ids);
        handler
    }

    /// Lists only tickets of one of the releases `release_ids`.
    pub fn release_ids(self, release_ids: Vec<String>) -> (handler: TicketsHandler)
        ensures
            handler@ == (TicketsHandlerView {
                release_ids: Some(release_ids.deep_view()),
                ..self@
            }),
    {
        let mut handler = self;
        handler.release_ids = Some(release_ids);
        handler
    }

    /// Lists only tickets made when `created_at` says.
    pub fn created_at(self, created_at: Vec<FilterDate>) -> (handler: TicketsHandler)
        ensures
            handler@ == (TicketsHandlerView { created_at: Some(created_at.deep_view()), ..self@ }),
    {
        let mut handler = self;
        handler.created_at = Some(created_at);
        handler
    }

    /// Lists only tickets changed when `updated_at` says.
    pub fn updated_at(self, updated_at: Vec<FilterDate>) -> (handler: TicketsHandler)
        ensures
            handler@ == (TicketsHandlerView { updated_at: Some(updated_at.deep_view()), ..self@ }),
    {
        let mut handler = self;
        handler.updated_at = Some(updated_at);
        handler
    }

    /// What to send for the page `page` of the listing.
    pub fn build(&self, page: u32) -> (request: Request)
        ensures
            request.url@ == self@.url(),
            request.query.deep_view() == self@.query(page),
    {
        let mut url = self.base_url.clone();
        url.append("/");
        url.append(self.account.as_str());
        url.append("/");
        url.append(self.event.as_str());
        url.append("/tickets");
        let mut query: Vec<(String, String)> = Vec::new();
        if let Some(sort) = &self.sort {
            query.push(pair("search[sort]", sort.clone()));
        }
        assert(query.deep_view() =~= listed(
            match self@.sort {
                Some(sort) => Some(seq![("search[sort]"@, sort)]),
                None => None,
            },
        ));
        let ghost sorted = query.deep_view();
        if let Some(direction) = &self.direction {
            query.push(pair("search[direction]", direction.to_string()));
        }
        assert(query.deep_view() =~= sorted + listed(
            match self@.direction {
                Some(direction) => Some(seq![("search[direction]"@, direction.text())]),
                None => None,
            },
        ));
        push_states(&mut query, &self.states);
        push_types(&mut query, &self.types);
        push_activity_ids(&mut query, &self.activity_ids);
        push_release_ids(&mut query, &self.release_ids);
        push_dates(&mut query, "created_at", &self.created_at);
        push_dates(&mut query, "updated_at", &self.updated_at);
        let ghost dated = query.deep_view();
        query.push(pair("page", decimal_string(page as u64)));
        assert(query.deep_view() =~= dated + seq![("page"@, decimal(page as nat))]);
        Request { url, query }
    }
}

} // verus!

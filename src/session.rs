use vstd::prelude::*;
use crate::aggregate::{FetchFailure, PlayerData};
use crate::card::{owned, Card};
use crate::clan::{ClanData, GlobalClanData, RatingClanData, TomatoClan};
use crate::clan_card::{generate_clan_embed, is_clan_card};
use crate::period::{all_periods, canonical_name_of, nice_name_of, period_named, Period};
use crate::render::{generate_main_stat_embed, generate_period_embed, is_main_card, is_period_card};
use crate::aggregate::window_of;
use crate::text::{decimal, decimal_text};

verus! {

/// How long a reply listens for component events after the last one.
pub const IDLE_TIMEOUT_SECS: u64 = 120;

/// What an interactive reply shows.
#[derive(Debug, PartialEq, Eq, Structural, Clone, Copy)]
pub enum ReplyView {
    Main,
    PeriodView(Period),
    Clan,
}

/// The view that a command asks for.
pub open spec fn requested_view(p: Option<Period>) -> ReplyView {
    match p {
        Some(x) => ReplyView::PeriodView(x),
        None => ReplyView::Main,
    }
}

/// The kind of component an event came from.
#[derive(Debug, PartialEq, Eq, Structural, Clone, Copy)]
pub enum ComponentKind {
    SelectMenu,
    Button,
    Other,
}

/// A component event on a reply.
#[derive(Debug)]
pub struct ComponentEvent {
    pub custom_id: String,
    pub kind: ComponentKind,
    pub values: Vec<String>,
    pub author: u64,
    pub channel: u64,
    /// When it came, in seconds on the loop's clock.
    pub at: u64,
}

/// What happens to a listening reply.
#[derive(Debug)]
pub enum Event {
    Component(ComponentEvent),
    /// The loop's wait ran out; the clock reads the given seconds.
    Tick(u64),
}

/// One choice of the period select menu.
#[derive(Debug)]
pub struct MenuOption {
    pub label: String,
    pub value: String,
}

/// The period select menu.
#[derive(Debug)]
pub struct SelectMenu {
    pub custom_id: String,
    pub min_values: u64,
    pub max_values: u64,
    pub options: Vec<MenuOption>,
}

#[derive(Debug, PartialEq, Eq, Structural, Clone, Copy)]
pub enum ButtonStyle {
    Primary,
    Success,
}

#[derive(Debug)]
pub struct Button {
    pub custom_id: String,
    pub label: String,
    pub style: ButtonStyle,
}

/// The components attached under a reply: the select menu, and the view
/// buttons for a clan member.
#[derive(Debug)]
pub struct Components {
    pub select_menu: SelectMenu,
    pub buttons: Vec<Button>,
}

/// What the loop around a reply does next.
#[derive(Debug)]
pub enum Action {
    /// Drop the event.
    Ignore,
    /// Acknowledge the event without changing the reply.
    Acknowledge,
    /// Show a new card with these components, then acknowledge as a deferred update.
    Edit(Card, Components),
    /// Remove the components and keep the card shown; the reply is over.
    Close,
}

/// The custom ids of a reply's select menu, player button and clan button.
pub open spec fn select_id(u: u64) -> Seq<char> {
    decimal(u as nat)
}

pub open spec fn player_button_id(u: u64) -> Seq<char> {
    decimal((2 * u) as nat)
}

pub open spec fn clan_button_id(u: u64) -> Seq<char> {
    decimal((3 * u) as nat)
}

/// Whether the menu lists every period, labelled with its display name and
/// valued with its canonical name, under the reply's menu id.
pub open spec fn is_period_menu(m: SelectMenu, u: u64) -> bool {
    &&& m.custom_id@ == select_id(u)
    &&& m.min_values == 1
    &&& m.max_values == 1
    &&& m.options@.len() == 7
    &&& forall|k: int|
        0 <= k < 7 ==> (#[trigger] m.options@[k]).label@ == nice_name_of(all_periods()[k])
            && m.options@[k].value@ == canonical_name_of(all_periods()[k])
}

pub fn create_select_menu(id: u64) -> (m: SelectMenu)
    ensures
        is_period_menu(m, id),
{
    let all = Period::all();
    let mut options: Vec<MenuOption> = Vec::new();
    let mut i: usize = 0;
    while i < all.len()
        invariant
            all@ == all_periods(),
            i <= all@.len(),
            options@.len() == i,
            forall|k: int|
                0 <= k < i ==> (#[trigger] options@[k]).label@ == nice_name_of(all_periods()[k])
                    && options@[k].value@ == canonical_name_of(all_periods()[k]),
        decreases all@.len() - i,
    {
        let p = all[i];
        options.push(MenuOption { label: owned(p.nice_name()), value: owned(p.name()) });
        i = i + 1;
    }
    SelectMenu { custom_id: decimal_text(id as u128), min_values: 1, max_values: 1, options }
}

/// The player and clan buttons of a reply.
pub fn view_buttons(id: u64) -> (r: Vec<Button>)
    ensures
        r@.len() == 2,
        r@[0].custom_id@ == player_button_id(id) && r@[0].label@ == "Player Stats"@ && r@[0].style
            == ButtonStyle::Primary,
        r@[1].custom_id@ == clan_button_id(id) && r@[1].label@ == "Clan Stats"@ && r@[1].style
            == ButtonStyle::Success,
{
    let mut r: Vec<Button> = Vec::new();
    r.push(
        Button {
            custom_id: decimal_text(2 * (id as u128)),
            label: owned("Player Stats"),
            style: ButtonStyle::Primary,
        },
    );
    r.push(
        Button {
            custom_id: decimal_text(3 * (id as u128)),
            label: owned("Clan Stats"),
            style: ButtonStyle::Success,
        },
    );
    r
}

/// The components of a reply: the menu always, the buttons for a clan member.
pub open spec fn is_components(c: Components, u: u64, in_clan: bool) -> bool {
    &&& is_period_menu(c.select_menu, u)
    &&& in_clan ==> c.buttons@.len() == 2 && c.buttons@[0].custom_id@ == player_button_id(u)
        && c.buttons@[0].label@ == "Player Stats"@ && c.buttons@[0].style == ButtonStyle::Primary
        && c.buttons@[1].custom_id@ == clan_button_id(u) && c.buttons@[1].label@ == "Clan Stats"@
        && c.buttons@[1].style == ButtonStyle::Success
    &&& !in_clan ==> c.buttons@.len() == 0
}

pub fn components_for(id: u64, in_clan: bool) -> (c: Components)
    ensures
        is_components(c, id, in_clan),
{
    let buttons = if in_clan {
        view_buttons(id)
    } else {
        Vec::new()
    };
    Components { select_menu: create_select_menu(id), buttons }
}

/// The card of a view, if its source data is there. The clan view draws
/// missing clan blocks as zeros.
pub fn render_view(data: &PlayerData, view: ReplyView) -> (r: Option<Card>)
    ensures
        view matches ReplyView::Main ==> (r is Some <==> (data.overall is Some && data.recents is Some)),
        view matches ReplyView::Main ==> (r is Some ==> is_main_card(r->0, *data)),
        view matches ReplyView::PeriodView(p) ==> (r is Some <==> data.recents is Some) && (r is Some
            ==> is_period_card(r->0, data.player.nickname@, p, window_of(data.recents->0, p))),
        view matches ReplyView::Clan ==> r is Some,
        (view matches ReplyView::Clan && data.clan is Some) ==> is_clan_card(r->0, data.clan->0),
        (view matches ReplyView::Clan && data.clan is None) ==> is_clan_card(r->0, no_clan_blocks()),
{
    match view {
        ReplyView::Main => match generate_main_stat_embed(data) {
            Ok(c) => Some(c),
            Err(_) => None,
        },
        ReplyView::PeriodView(p) => match generate_period_embed(data, p) {
            Ok(c) => Some(c),
            Err(_) => None,
        },
        ReplyView::Clan => match &data.clan {
            Some(c) => Some(generate_clan_embed(c)),
            None => Some(generate_clan_embed(&ClanData { rating: None, global: None, tomato: None })),
        },
    }
}

/// The first card of a stats reply: the requested view from the fast wave,
/// or a placeholder while its data is missing.
pub fn first_card(data: &PlayerData, period: Option<Period>) -> (c: Card)
    ensures
        render_view_ok(*data, requested_view(period)) ==> is_view_card(c, *data, requested_view(period)),
        !render_view_ok(*data, requested_view(period)) ==> is_bare_card(c, "Not in Cache... Please wait"@),
{
    let view = match period {
        Some(p) => ReplyView::PeriodView(p),
        None => ReplyView::Main,
    };
    match render_view(data, view) {
        Some(c) => c,
        None => Card::titled(owned("Not in Cache... Please wait")),
    }
}

/// A clan aggregate with every block missing.
pub open spec fn no_clan_blocks() -> ClanData {
    ClanData { rating: None, global: None, tomato: None }
}

/// A card that shows only a title.
pub open spec fn is_bare_card(c: Card, title: Seq<char>) -> bool {
    &&& c.title@ == title
    &&& c.url is None
    &&& c.description is None
    &&& c.color is None
    &&& c.thumbnail is None
    &&& c.fields@.len() == 0
    &&& c.footer is None
}

/// Whether a card is the drawing of a player view.
pub open spec fn is_view_card(c: Card, d: PlayerData, v: ReplyView) -> bool {
    match v {
        ReplyView::Main => is_main_card(c, d),
        ReplyView::PeriodView(p) => is_period_card(c, d.player.nickname@, p, window_of(d.recents->0, p)),
        ReplyView::Clan => is_clan_card(c, d.clan.unwrap_or(no_clan_blocks())),
    }
}

/// Whether a view can be drawn from the data.
pub open spec fn render_view_ok(d: PlayerData, v: ReplyView) -> bool {
    match v {
        ReplyView::Main => d.overall is Some && d.recents is Some,
        ReplyView::PeriodView(_) => d.recents is Some,
        ReplyView::Clan => true,
    }
}

/// The card after the authoritative wave: the requested view, or, when its
/// data is still missing, the not-found card that ends the reply.
pub fn settled_card(data: &PlayerData, period: Option<Period>) -> (r: Result<Card, Card>)
    ensures
        r is Ok <==> render_view_ok(*data, requested_view(period)),
        r matches Ok(c) ==> is_view_card(c, *data, requested_view(period)),
        r matches Err(c) ==> is_bare_card(c, "User Not Found on Tomato.gg"@),
{
    let view = match period {
        Some(p) => ReplyView::PeriodView(p),
        None => ReplyView::Main,
    };
    match render_view(data, view) {
        Some(c) => Ok(c),
        None => Err(Card::titled(owned("User Not Found on Tomato.gg"))),
    }
}

/// The clan aggregate from its three upstream blocks; `None` when all three
/// failed.
pub fn combine_clan_blocks(
    rating: Result<Option<RatingClanData>, FetchFailure>,
    global: Result<Option<GlobalClanData>, FetchFailure>,
    tomato: Result<TomatoClan, FetchFailure>,
) -> (r: Option<ClanData>)
    ensures
        r is None <==> (rating is Err && global is Err && tomato is Err),
        r matches Some(c) ==> c.rating == crate::aggregate::first_wave_value(rating) && c.global
            == crate::aggregate::first_wave_value(global) && c.tomato == match tomato {
            Ok(t) => Some(t),
            Err(_) => None,
        },
{
    if rating.is_err() && global.is_err() && tomato.is_err() {
        return None;
    }
    Some(
        ClanData {
            rating: match rating {
                Ok(v) => v,
                Err(_) => None,
            },
            global: match global {
                Ok(v) => v,
                Err(_) => None,
            },
            tomato: match tomato {
                Ok(t) => Some(t),
                Err(_) => None,
            },
        },
    )
}

/// The clan aggregate that a stats reply keeps: it needs the clan profile, so
/// without it the reply keeps no aggregate and its clan view shows zeros.
pub fn clan_for_reply(
    rating: Result<Option<RatingClanData>, FetchFailure>,
    global: Result<Option<GlobalClanData>, FetchFailure>,
    tomato: Result<TomatoClan, FetchFailure>,
) -> (r: Option<ClanData>)
    ensures
        r is None <==> tomato is Err,
        r matches Some(c) ==> c.rating == crate::aggregate::first_wave_value(rating) && c.global
            == crate::aggregate::first_wave_value(global) && c.tomato == Some(tomato->Ok_0),
{
    match tomato {
        Err(_) => None,
        Ok(t) => combine_clan_blocks(rating, global, Ok(t)),
    }
}

/// One interactive stats reply while it listens for component events.
#[derive(Debug)]
pub struct Session {
    pub uuid: u64,
    pub invoker: u64,
    pub channel: u64,
    pub data: PlayerData,
    pub view: ReplyView,
    pub closed: bool,
    /// When the idle window runs out, in seconds on the loop's clock.
    pub deadline: u64,
}

/// The end of an idle window that starts at `t`.
pub open spec fn idle_deadline(t: u64) -> u64 {
    if t <= u64::MAX - IDLE_TIMEOUT_SECS {
        (t + IDLE_TIMEOUT_SECS) as u64
    } else {
        u64::MAX
    }
}

fn deadline_from(t: u64) -> (r: u64)
    ensures
        r == idle_deadline(t),
{
    if t <= u64::MAX - IDLE_TIMEOUT_SECS {
        t + IDLE_TIMEOUT_SECS
    } else {
        u64::MAX
    }
}

/// Whether an event is for this reply: from its invoker, in its channel, on
/// one of its components.
pub open spec fn accepted(s: Session, e: ComponentEvent) -> bool {
    &&& e.author == s.invoker
    &&& e.channel == s.channel
    &&& (e.custom_id@ == select_id(s.uuid) || e.custom_id@ == player_button_id(s.uuid)
        || e.custom_id@ == clan_button_id(s.uuid))
}

/// The view that an accepted event asks for, if it names one.
pub open spec fn target_view(s: Session, e: ComponentEvent) -> Option<ReplyView> {
    if e.kind == ComponentKind::SelectMenu && e.custom_id@ == select_id(s.uuid) {
        if e.values@.len() > 0 && period_named(e.values@[0]@) is Some {
            Some(ReplyView::PeriodView(period_named(e.values@[0]@)->0))
        } else {
            None
        }
    } else if e.kind == ComponentKind::Button && e.custom_id@ == player_button_id(s.uuid) {
        Some(ReplyView::Main)
    } else if e.kind == ComponentKind::Button && e.custom_id@ == clan_button_id(s.uuid) {
        Some(ReplyView::Clan)
    } else {
        None
    }
}

/// Whether an event closes a reply that is `closed` or not, whose idle
/// window ends at `deadline`.
pub open spec fn closes(closed: bool, deadline: u64, e: Event) -> bool {
    !closed && (e matches Event::Tick(now) && now >= deadline)
}

/// How many times a run of events closes a reply, each event paired with
/// the deadline that stood when it came.
pub open spec fn close_count(closed: bool, es: Seq<(u64, Event)>) -> nat
    decreases es.len(),
{
    if es.len() == 0 {
        0
    } else {
        (if closes(closed, es[0].0, es[0].1) {
            1nat
        } else {
            0nat
        }) + close_count(closed || closes(closed, es[0].0, es[0].1), es.drop_first())
    }
}

/// Over any run of events, whatever the deadlines, a reply has its
/// components removed at most once, and a closed reply never again.
pub proof fn lemma_closes_once(closed: bool, es: Seq<(u64, Event)>)
    ensures
        close_count(closed, es) <= 1,
        closed ==> close_count(closed, es) == 0,
    decreases es.len(),
{
    if es.len() > 0 {
        lemma_closes_once(closed || closes(closed, es[0].0, es[0].1), es.drop_first());
    }
}

impl Session {
    /// Starts listening on a reply that shows the requested view.
    /// Starts at `now` on the loop's clock, when the components are attached.
    /// The three component ids differ only for a nonzero `uuid`, as the chat
    /// platform's interaction ids are; at 0 a clan click reads as the player
    /// button.
    pub fn open(uuid: u64, invoker: u64, channel: u64, data: PlayerData, period: Option<Period>, now: u64) -> (s: Session)
        ensures
            s.uuid == uuid && s.invoker == invoker && s.channel == channel,
            s.deadline == idle_deadline(now),
            s.data == data,
            s.view == requested_view(period),
            !s.closed,
    {
        let view = match period {
            Some(p) => ReplyView::PeriodView(p),
            None => ReplyView::Main,
        };
        Session { uuid, invoker, channel, data, view, closed: false, deadline: deadline_from(now) }
    }

    /// Seconds left in the idle window at `now`.
    pub fn remaining(&self, now: u64) -> (r: u64)
        ensures
            now >= self.deadline ==> r == 0,
            now < self.deadline ==> r == self.deadline - now,
    {
        if now >= self.deadline {
            0
        } else {
            self.deadline - now
        }
    }

    /// Handles one event. A closed reply ignores everything; a tick at or
    /// after the deadline closes an open one, an earlier tick changes
    /// nothing; an accepted component event restarts the idle window and is
    /// acknowledged, switching the view when the new view can be drawn.
    pub fn step(&mut self, event: Event) -> (a: Action)
        ensures
            old(self).closed ==> a is Ignore && *final(self) == *old(self),
            a is Close <==> closes(old(self).closed, old(self).deadline, event),
            final(self).closed == (old(self).closed || closes(old(self).closed, old(self).deadline, event)),
            event is Tick && !closes(old(self).closed, old(self).deadline, event) ==> a is Ignore
                && *final(self) == *old(self),
            event matches Event::Component(e) ==> (!old(self).closed && accepted(*old(self), e) ==> (a is Edit
                || a is Acknowledge) && final(self).deadline == idle_deadline(e.at)),
            final(self).uuid == old(self).uuid && final(self).invoker == old(self).invoker
                && final(self).channel == old(self).channel && final(self).data == old(self).data,
            event matches Event::Component(e) ==> (!old(self).closed && !accepted(*old(self), e)
                ==> a is Ignore && *final(self) == *old(self)),
            event matches Event::Component(e) ==> (!old(self).closed && accepted(*old(self), e)
                ==> match target_view(*old(self), e) {
                Some(v) => if render_view_ok(old(self).data, v) {
                    &&& a matches Action::Edit(card, c) && is_components(c, old(self).uuid, old(self).data.is_in_clan)
                        && is_view_card(card, old(self).data, v)
                    &&& final(self).view == v
                } else {
                    a is Acknowledge && final(self).view == old(self).view
                },
                None => a is Acknowledge && final(self).view == old(self).view,
            }),
    {
        if self.closed {
            return Action::Ignore;
        }
        let e = match event {
            Event::Tick(now) => {
                if now >= self.deadline {
                    self.closed = true;
                    return Action::Close;
                }
                return Action::Ignore;
            },
            Event::Component(e) => e,
        };
        let sel = decimal_text(self.uuid as u128);
        let player = decimal_text(2 * (self.uuid as u128));
        let clan = decimal_text(3 * (self.uuid as u128));
        if !(e.author == self.invoker && e.channel == self.channel && (e.custom_id == sel
            || e.custom_id == player || e.custom_id == clan)) {
            return Action::Ignore;
        }
        self.deadline = deadline_from(e.at);
        let target = if e.kind == ComponentKind::SelectMenu && e.custom_id == sel {
            if e.values.len() > 0 {
                match Period::from_name(e.values[0].as_str()) {
                    Some(p) => Some(ReplyView::PeriodView(p)),
                    None => None,
                }
            } else {
                None
            }
        } else if e.kind == ComponentKind::Button && e.custom_id == player {
            Some(ReplyView::Main)
        } else if e.kind == ComponentKind::Button && e.custom_id == clan {
            Some(ReplyView::Clan)
        } else {
            None
        };
        match target {
            Some(v) => match render_view(&self.data, v) {
                Some(card) => {
                    self.view = v;
                    Action::Edit(card, components_for(self.uuid, self.data.is_in_clan))
                },
                None => Action::Acknowledge,
            },
            None => Action::Acknowledge,
        }
    }
}

} // verus!

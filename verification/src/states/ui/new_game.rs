//! The menu that starts a single-player, joined or hosted game.

use vstd::prelude::*;
use vstd::string::StrSliceExecFns;
use crate::states::ui::notify::same_entity;
use crate::states::ui::visibility_of;
use crate::states::ui::EntityRef;
use crate::states::ui::UiInput;
use crate::states::ui::UiState;
use crate::states::ui::VisibilityUpdate;
use crate::systems::net::message::PeerAddress;

verus! {

/// The id of the root entity of the menu.
pub const ROOT_ID: &'static str = "new_game";
/// The id of the single-player button.
pub const BUTTON_PLAY_SINGLE_ID: &'static str = "new_game.single";
/// The id of the join button.
pub const BUTTON_JOIN_ID: &'static str = "new_game.join";
/// The id of the host button.
pub const BUTTON_HOST_ID: &'static str = "new_game.host";
/// The id of the back button.
pub const BUTTON_BACK_ID: &'static str = "new_game.back";
/// The id of the input that holds the IP address of the server to join.
pub const INPUT_IP_ID: &'static str = "new_game.ip";
/// The id of the input that holds the port.
pub const INPUT_PORT_ID: &'static str = "new_game.port";

/// The kind of game to start.
#[derive(Clone, Copy, Debug, PartialEq, Eq, Structural)]
pub enum GameType {
    /// A game of one player.
    Single,
    /// A game hosted by the server at this address.
    Join(PeerAddress),
    /// A game hosted here, on this port.
    Host(u16),
}

/// Where the menu goes next.
#[derive(Clone, Copy, Debug, PartialEq, Eq, Structural)]
pub enum NewGameTransition {
    /// Stay in the menu.
    Stay,
    /// Go back to the previous menu.
    Pop,
    /// Start a game of this kind in place of the menu.
    Start(GameType),
}

/// The value of the decimal digits `digits`.
pub open spec fn digits_value(digits: Seq<char>) -> int
    decreases digits.len(),
{
    if digits.len() == 0 {
        0
    } else {
        digits_value(digits.drop_last()) * 10 + (digits.last() as int - '0' as int)
    }
}

/// The port that the text `text` reads as: an optional `+`, then one or more
/// decimal digits whose value is at most 65535.
pub open spec fn port_of_text(text: Seq<char>) -> Option<u16> {
    let digits = if text.len() > 0 && text[0] == '+' {
        text.drop_first()
    } else {
        text
    };
    if digits.len() > 0 && all_digits(digits) && digits_value(digits) <= 65535 {
        Some(digits_value(digits) as u16)
    } else {
        None
    }
}

/// All of `digits` are decimal digits.
pub open spec fn all_digits(digits: Seq<char>) -> bool {
    forall|i: int| 0 <= i < digits.len() ==> '0' <= #[trigger] digits[i] <= '9'
}

/// The value of a prefix of decimal digits is at most the value of all of
/// them, and no value of digits is negative.
proof fn lemma_digits_value_prefix(digits: Seq<char>, k: int)
    requires
        all_digits(digits),
        0 <= k <= digits.len(),
    ensures
        0 <= digits_value(digits.subrange(0, k)) <= digits_value(digits),
    decreases digits.len(),
{
    if k == digits.len() {
        assert(digits.subrange(0, k) == digits);
        if digits.len() > 0 {
            lemma_digits_value_prefix(digits.drop_last(), k - 1);
            assert(digits.drop_last().subrange(0, k - 1) == digits.drop_last());
            assert('0' <= digits[digits.len() - 1] <= '9');
        }
    } else {
        let init = digits.drop_last();
        lemma_digits_value_prefix(init, k);
        assert(init.subrange(0, k) == digits.subrange(0, k));
        lemma_digits_value_prefix(init, init.len() as int);
        assert(init.subrange(0, init.len() as int) == init);
        assert('0' <= digits[digits.len() - 1] <= '9');
    }
}

/// Reads `text` as a port: an optional `+`, then one or more decimal digits
/// whose value is at most 65535, as `u16::from_str` reads it.
fn parse_u16(text: &str) -> (r: Option<u16>)
    ensures
        r == port_of_text(text@),
{
    let n = text.unicode_len();
    let mut start: usize = 0;
    if n > 0 && text.get_char(0) == '+' {
        start = 1;
    }
    let ghost digits = text@.subrange(start as int, n as int);
    proof {
        if n > 0 && text@[0] == '+' {
            assert(digits == text@.drop_first());
        } else {
            assert(digits == text@);
        }
    }
    if start >= n {
        return None;
    }
    let mut value: u32 = 0;
    let mut i: usize = start;
    while i < n
        invariant
            start < n,
            n == text@.len(),
            digits == text@.subrange(start as int, n as int),
            digits == (if text@.len() > 0 && text@[0] == '+' { text@.drop_first() } else { text@ }),
            start <= i <= n,
            all_digits(digits.subrange(0, i - start)),
            value == digits_value(digits.subrange(0, i - start)),
            value <= 65535,
        decreases n - i,
    {
        let c = text.get_char(i);
        assert(digits[i - start] == c);
        if c < '0' || c > '9' {
            assert(!all_digits(digits));
            return None;
        }
        let ghost next = digits.subrange(0, i - start + 1);
        assert(next.drop_last() == digits.subrange(0, i - start));
        assert(next.last() == c);
        assert(all_digits(next));
        let d = (c as u32) - ('0' as u32);
        value = value * 10 + d;
        if value > 65535 {
            proof {
                if all_digits(digits) {
                    lemma_digits_value_prefix(digits, i - start + 1);
                }
            }
            return None;
        }
        i = i + 1;
    }
    assert(digits.subrange(0, i - start) == digits);
    Some(value as u16)
}

/// The text of the address to join, `ip:port`, or why there is none.
pub open spec fn address_text_of(ip: Option<String>, port: Option<String>) -> Result<Seq<char>, Seq<char>> {
    match ip {
        None => Err("No IP specified"@),
        Some(ip) => match port {
            None => Err("No port specified"@),
            Some(port) => Ok(ip@ + ":"@ + port@),
        },
    }
}

/// The port to host on, or why there is none.
pub open spec fn port_result_of(port: Option<String>) -> Result<u16, Seq<char>> {
    match port {
        None => Err("No prot specified"@),
        Some(text) => match port_of_text(text@) {
            Some(p) => Ok(p),
            None => Err("Wrong port"@),
        },
    }
}

/// The view of a result that holds texts.
pub open spec fn result_view<T>(r: Result<T, String>) -> Result<T, Seq<char>> {
    match r {
        Ok(v) => Ok(v),
        Err(e) => Err(e@),
    }
}

/// The view of a result of texts.
pub open spec fn text_result_view(r: Result<String, String>) -> Result<Seq<char>, Seq<char>> {
    match r {
        Ok(v) => Ok(v@),
        Err(e) => Err(e@),
    }
}

/// Where the menu goes on `input`, and the errors to report on the way, when
/// the address to join reads as `address` and the port to host on as `port`.
/// Buttons are tried in the order single, join, host, back; a join or host
/// whose input does not read reports its error and tries the next button.
pub open spec fn new_game_outcome(
    buttons: (Option<EntityRef>, Option<EntityRef>, Option<EntityRef>, Option<EntityRef>),
    input: UiInput,
    address: Result<PeerAddress, Seq<char>>,
    port: Result<u16, Seq<char>>,
) -> (NewGameTransition, Seq<Seq<char>>) {
    match input {
        UiInput::Escape => (NewGameTransition::Pop, Seq::empty()),
        UiInput::Other => (NewGameTransition::Stay, Seq::empty()),
        UiInput::Click(t) => if buttons.0 == Some(t) {
            (NewGameTransition::Start(GameType::Single), Seq::empty())
        } else if buttons.1 == Some(t) && address is Ok {
            (NewGameTransition::Start(GameType::Join(address->Ok_0)), Seq::empty())
        } else {
            let join_errors = if buttons.1 == Some(t) {
                seq![address->Err_0]
            } else {
                Seq::empty()
            };
            if buttons.2 == Some(t) && port is Ok {
                (NewGameTransition::Start(GameType::Host(port->Ok_0)), join_errors)
            } else {
                let errors = join_errors + if buttons.2 == Some(t) {
                    seq![port->Err_0]
                } else {
                    Seq::empty()
                };
                if buttons.3 == Some(t) {
                    (NewGameTransition::Pop, errors)
                } else {
                    (NewGameTransition::Stay, errors)
                }
            }
        },
    }
}

/// The menu that starts a new game.
pub struct NewGameState {
    root: Option<EntityRef>,
    button_play_single: Option<EntityRef>,
    button_join: Option<EntityRef>,
    button_host: Option<EntityRef>,
    button_back: Option<EntityRef>,
}

impl NewGameState {
    /// The root entity, once it was found.
    pub closed spec fn root_entity(&self) -> Option<EntityRef> {
        self.root
    }

    /// The single-player, join, host and back buttons, once they were found.
    pub closed spec fn buttons(&self) -> (Option<EntityRef>, Option<EntityRef>, Option<EntityRef>, Option<EntityRef>) {
        (self.button_play_single, self.button_join, self.button_host, self.button_back)
    }

    /// A menu whose entities are not found yet.
    pub fn new() -> (r: Self)
        ensures
            r.root_entity() == None::<EntityRef>,
            r.buttons() == (None::<EntityRef>, None::<EntityRef>, None::<EntityRef>, None::<EntityRef>),
    {
        NewGameState {
            root: None,
            button_play_single: None,
            button_join: None,
            button_host: None,
            button_back: None,
        }
    }

    /// The text of the address to join, `ip:port`, from the texts of the IP
    /// and port inputs; the caller reads it as a socket address and reports
    /// "Wrong address" where that fails.
    pub fn parse_input_address(ip: Option<String>, port: Option<String>) -> (r: Result<String, String>)
        ensures
            text_result_view(r) == address_text_of(ip, port),
    {
        match ip {
            None => Err(String::from_str("No IP specified")),
            Some(ip) => match port {
                None => Err(String::from_str("No port specified")),
                Some(port) => {
                    let mut text = ip;
                    text.append(":");
                    text.append(port.as_str());
                    Ok(text)
                },
            },
        }
    }

    /// The port to host on, from the text of the port input.
    pub fn parse_input_port(port: Option<String>) -> (r: Result<u16, String>)
        ensures
            result_view(r) == port_result_of(port),
    {
        match port {
            None => Err(String::from_str("No prot specified")),
            Some(text) => match parse_u16(text.as_str()) {
                Some(p) => Ok(p),
                None => Err(String::from_str("Wrong port")),
            },
        }
    }

    /// Keeps the entities found when the menu starts, and shows it.
    pub fn on_start(
        &mut self,
        root: Option<EntityRef>,
        play_single: Option<EntityRef>,
        join: Option<EntityRef>,
        host: Option<EntityRef>,
        back: Option<EntityRef>,
    ) -> (r: VisibilityUpdate)
        ensures
            final(self).root_entity() == root,
            final(self).buttons() == (play_single, join, host, back),
            r == visibility_of(root, true),
    {
        self.root = root;
        self.button_play_single = play_single;
        self.button_join = join;
        self.button_host = host;
        self.button_back = back;
        self.set_visibility(true)
    }

    /// Hides the menu when it is paused.
    pub fn on_pause(&self) -> (r: VisibilityUpdate)
        ensures
            r == visibility_of(self.root_entity(), false),
    {
        self.set_visibility(false)
    }

    /// Shows the menu again when it resumes.
    pub fn on_resume(&self) -> (r: VisibilityUpdate)
        ensures
            r == visibility_of(self.root_entity(), true),
    {
        self.set_visibility(true)
    }

    /// Forgets the buttons and hides the menu when it stops.
    pub fn on_stop(&mut self) -> (r: VisibilityUpdate)
        ensures
            final(self).root_entity() == old(self).root_entity(),
            final(self).buttons() == (None::<EntityRef>, None::<EntityRef>, None::<EntityRef>, None::<EntityRef>),
            r == visibility_of(old(self).root_entity(), false),
    {
        self.button_play_single = None;
        self.button_join = None;
        self.button_host = None;
        self.button_back = None;
        self.set_visibility(false)
    }

    /// Where the menu goes on `input`, with the errors to report, when the
    /// address to join reads as `address` and the port to host on as `port`.
    pub fn handle_event(
        &self,
        input: UiInput,
        address: Result<PeerAddress, String>,
        port: Result<u16, String>,
    ) -> (r: (NewGameTransition, Vec<String>))
        ensures
            r.0 == new_game_outcome(self.buttons(), input, result_view(address), result_view(port)).0,
            r.1@.map_values(|e: String| e@) == new_game_outcome(
                self.buttons(),
                input,
                result_view(address),
                result_view(port),
            ).1,
    {
        let mut errors: Vec<String> = Vec::new();
        match input {
            UiInput::Escape => {
                return (NewGameTransition::Pop, errors);
            },
            UiInput::Click(target) => {
                if same_entity(self.button_play_single, target) {
                    return (NewGameTransition::Start(GameType::Single), errors);
                }
                if same_entity(self.button_join, target) {
                    match address {
                        Ok(address) => {
                            return (NewGameTransition::Start(GameType::Join(address)), errors);
                        },
                        Err(error) => {
                            errors.push(error);
                        },
                    }
                }
                if same_entity(self.button_host, target) {
                    match port {
                        Ok(port) => {
                            return (NewGameTransition::Start(GameType::Host(port)), errors);
                        },
                        Err(error) => {
                            errors.push(error);
                        },
                    }
                }
                if same_entity(self.button_back, target) {
                    return (NewGameTransition::Pop, errors);
                }
            },
            UiInput::Other => {},
        }
        (NewGameTransition::Stay, errors)
    }
}

impl UiState for NewGameState {
    open spec fn root(&self) -> Option<EntityRef> {
        self.root_entity()
    }

    fn get_root(&self) -> (r: Option<EntityRef>) {
        self.root
    }
}

} // verus!

verus! {

/// Escape always goes back; a click on the single-player button always starts
/// a single-player game; other events than escape and clicks do nothing.
pub proof fn lemma_new_game_fixed_answers(
    buttons: (Option<EntityRef>, Option<EntityRef>, Option<EntityRef>, Option<EntityRef>),
    target: EntityRef,
    address: Result<PeerAddress, Seq<char>>,
    port: Result<u16, Seq<char>>,
)
    ensures
        new_game_outcome(buttons, UiInput::Escape, address, port) == (
            NewGameTransition::Pop,
            Seq::<Seq<char>>::empty(),
        ),
        new_game_outcome(buttons, UiInput::Other, address, port) == (
            NewGameTransition::Stay,
            Seq::<Seq<char>>::empty(),
        ),
        buttons.0 == Some(target) ==> new_game_outcome(buttons, UiInput::Click(target), address, port) == (
            NewGameTransition::Start(GameType::Single),
            Seq::<Seq<char>>::empty(),
        ),
{
}

/// A click on the join button joins the address that the inputs read as, and
/// where they do not read, reports why and does not start a game (unless the
/// same entity is also the host button).
pub proof fn lemma_join_reports_its_error(
    buttons: (Option<EntityRef>, Option<EntityRef>, Option<EntityRef>, Option<EntityRef>),
    target: EntityRef,
    address: Result<PeerAddress, Seq<char>>,
    port: Result<u16, Seq<char>>,
)
    requires
        buttons.0 != Some(target),
        buttons.1 == Some(target),
        buttons.2 != Some(target),
    ensures
        new_game_outcome(buttons, UiInput::Click(target), address, port).0 == match address {
            Ok(a) => NewGameTransition::Start(GameType::Join(a)),
            Err(_) => if buttons.3 == Some(target) {
                NewGameTransition::Pop
            } else {
                NewGameTransition::Stay
            },
        },
        address is Err ==> new_game_outcome(buttons, UiInput::Click(target), address, port).1 == seq![
            address->Err_0,
        ],
{
    if address is Err {
        assert(seq![address->Err_0] + Seq::<Seq<char>>::empty() =~= seq![address->Err_0]);
    }
}

/// Once the menu stopped, a click does nothing.
pub proof fn lemma_clicks_after_stop_do_nothing(
    target: EntityRef,
    address: Result<PeerAddress, Seq<char>>,
    port: Result<u16, Seq<char>>,
)
    ensures
        new_game_outcome(
            (None::<EntityRef>, None::<EntityRef>, None::<EntityRef>, None::<EntityRef>),
            UiInput::Click(target),
            address,
            port,
        ) == (NewGameTransition::Stay, Seq::<Seq<char>>::empty()),
{
    assert(Seq::<Seq<char>>::empty() + Seq::<Seq<char>>::empty() =~= Seq::<Seq<char>>::empty());
}

} // verus!

verus! {

/// A click on the host button (that is neither the single-player nor the join
/// button) hosts on the port that the port input reads as, whatever the
/// address inputs read as; where the port does not read, it reports why and
/// starts no game.
pub proof fn lemma_host_reads_only_the_port(
    buttons: (Option<EntityRef>, Option<EntityRef>, Option<EntityRef>, Option<EntityRef>),
    target: EntityRef,
    address: Result<PeerAddress, Seq<char>>,
    port: Result<u16, Seq<char>>,
)
    requires
        buttons.0 != Some(target),
        buttons.1 != Some(target),
        buttons.2 == Some(target),
    ensures
        port matches Ok(p) ==> new_game_outcome(buttons, UiInput::Click(target), address, port) == (
            NewGameTransition::Start(GameType::Host(p)),
            Seq::<Seq<char>>::empty(),
        ),
        port matches Err(e) ==> new_game_outcome(buttons, UiInput::Click(target), address, port) == (
            if buttons.3 == Some(target) {
                NewGameTransition::Pop
            } else {
                NewGameTransition::Stay
            },
            seq![e],
        ),
{
    if port is Err {
        assert(Seq::<Seq<char>>::empty() + seq![port->Err_0] =~= seq![port->Err_0]);
    }
}

/// A click on the back button (that is none of the other buttons) goes back,
/// whatever the inputs read as; a click on no button stays, reporting nothing.
pub proof fn lemma_back_and_elsewhere(
    buttons: (Option<EntityRef>, Option<EntityRef>, Option<EntityRef>, Option<EntityRef>),
    target: EntityRef,
    address: Result<PeerAddress, Seq<char>>,
    port: Result<u16, Seq<char>>,
)
    requires
        buttons.0 != Some(target),
        buttons.1 != Some(target),
        buttons.2 != Some(target),
    ensures
        new_game_outcome(buttons, UiInput::Click(target), address, port) == (
            if buttons.3 == Some(target) {
                NewGameTransition::Pop
            } else {
                NewGameTransition::Stay
            },
            Seq::<Seq<char>>::empty(),
        ),
{
    assert(Seq::<Seq<char>>::empty() + Seq::<Seq<char>>::empty() =~= Seq::<Seq<char>>::empty());
}

} // verus!

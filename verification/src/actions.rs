//! The action system: what a caller may do in each game phase, as plain
//! data, with helpers that enumerate the valid actions of a state.

use vstd::prelude::*;

use crate::deck::DeckType;
use crate::hand::Hand;
use crate::play_limits::PlayLimits;
use crate::stakes::StakeLevel;

verus! {

/// Base trait for all game actions.
pub trait Action {
    /// The action index.
    fn index(&self) -> u32;

    /// A short description of the action.
    fn description(&self) -> &str;

    /// Whether this action is valid in the current context.
    fn is_valid(&self) -> bool;
}

/// Actions available in the menu phase.
#[derive(Debug, Clone, Copy, PartialEq, Eq)]
pub enum MenuAction {
    SelectDeck(DeckType),
    SelectStake(StakeLevel),
    StartGame,
    Exit,
}

impl Action for MenuAction {
    fn index(&self) -> (r: u32)
        ensures
            r == match self {
                MenuAction::SelectDeck(_) => 1int,
                MenuAction::SelectStake(_) => 2int,
                MenuAction::StartGame => 3int,
                MenuAction::Exit => 4int,
            },
    {
        match self {
            MenuAction::SelectDeck(_) => 1,
            MenuAction::SelectStake(_) => 2,
            MenuAction::StartGame => 3,
            MenuAction::Exit => 4,
        }
    }

    fn description(&self) -> (r: &str)
        ensures
            r@ == match self {
                MenuAction::SelectDeck(_) => "Select Deck Type"@,
                MenuAction::SelectStake(_) => "Select Stake Level"@,
                MenuAction::StartGame => "Start Game"@,
                MenuAction::Exit => "Exit"@,
            },
    {
        match self {
            MenuAction::SelectDeck(_) => "Select Deck Type",
            MenuAction::SelectStake(_) => "Select Stake Level",
            MenuAction::StartGame => "Start Game",
            MenuAction::Exit => "Exit",
        }
    }

    fn is_valid(&self) -> (r: bool)
        ensures
            r,
    {
        true
    }
}

/// Actions available in the shop phase.
#[derive(Debug, Clone, Copy, PartialEq, Eq, Structural)]
pub enum ShopAction {
    NextRound,
}

impl Action for ShopAction {
    fn index(&self) -> (r: u32)
        ensures
            r == 1,
    {
        1
    }

    fn description(&self) -> (r: &str)
        ensures
            r@ == "Next Round"@,
    {
        "Next Round"
    }

    fn is_valid(&self) -> (r: bool)
        ensures
            r,
    {
        true
    }
}

/// Actions available in the blind-select phase.
#[derive(Debug, Clone, Copy, PartialEq, Eq, Structural)]
pub enum BlindAction {
    SelectBossBlind,
    SelectEliteBlind,
    SelectNormalBlind,
    ViewBlindDetails,
}

impl Action for BlindAction {
    fn index(&self) -> (r: u32)
        ensures
            r == match self {
                BlindAction::SelectBossBlind => 1int,
                BlindAction::SelectEliteBlind => 2int,
                BlindAction::SelectNormalBlind => 3int,
                BlindAction::ViewBlindDetails => 4int,
            },
    {
        match self {
            BlindAction::SelectBossBlind => 1,
            BlindAction::SelectEliteBlind => 2,
            BlindAction::SelectNormalBlind => 3,
            BlindAction::ViewBlindDetails => 4,
        }
    }

    fn description(&self) -> (r: &str)
        ensures
            r@ == match self {
                BlindAction::SelectBossBlind => "Select Boss Blind"@,
                BlindAction::SelectEliteBlind => "Select Elite Blind"@,
                BlindAction::SelectNormalBlind => "Select Normal Blind"@,
                BlindAction::ViewBlindDetails => "View Blind Details"@,
            },
    {
        match self {
            BlindAction::SelectBossBlind => "Select Boss Blind",
            BlindAction::SelectEliteBlind => "Select Elite Blind",
            BlindAction::SelectNormalBlind => "Select Normal Blind",
            BlindAction::ViewBlindDetails => "View Blind Details",
        }
    }

    fn is_valid(&self) -> (r: bool)
        ensures
            r,
    {
        true
    }
}

/// Actions available in the playing phase. Card actions carry a hand
/// position.
#[derive(Debug, Clone, Copy, PartialEq, Eq, Structural)]
pub enum PlayingAction {
    PlaySelectedCards,
    DiscardSelectedCards,
    SelectCard(usize),
    DeselectCard(usize),
    MoveRight(usize),
    MoveLeft(usize),
    SortByRank,
    SortBySuit,
}

impl Action for PlayingAction {
    fn index(&self) -> (r: u32)
        ensures
            r == match self {
                PlayingAction::PlaySelectedCards => 0int,
                PlayingAction::DiscardSelectedCards => 1int,
                PlayingAction::SelectCard(_) => 2int,
                PlayingAction::DeselectCard(_) => 3int,
                PlayingAction::MoveRight(_) => 4int,
                PlayingAction::MoveLeft(_) => 5int,
                PlayingAction::SortByRank => 6int,
                PlayingAction::SortBySuit => 7int,
            },
    {
        match self {
            PlayingAction::PlaySelectedCards => 0,
            PlayingAction::DiscardSelectedCards => 1,
            PlayingAction::SelectCard(_) => 2,
            PlayingAction::DeselectCard(_) => 3,
            PlayingAction::MoveRight(_) => 4,
            PlayingAction::MoveLeft(_) => 5,
            PlayingAction::SortByRank => 6,
            PlayingAction::SortBySuit => 7,
        }
    }

    fn description(&self) -> (r: &str)
        ensures
            r@ == self.spec_description(),
    {
        match self {
            PlayingAction::PlaySelectedCards => "Play selected cards",
            PlayingAction::DiscardSelectedCards => "Discard selected cards",
            PlayingAction::SelectCard(_) => "Select card",
            PlayingAction::DeselectCard(_) => "Deselect card",
            PlayingAction::MoveRight(_) => "Move right",
            PlayingAction::MoveLeft(_) => "Move left",
            PlayingAction::SortByRank => "Sort by rank",
            PlayingAction::SortBySuit => "Sort by suit",
        }
    }

    fn is_valid(&self) -> (r: bool)
        ensures
            r,
    {
        true
    }
}

impl PlayingAction {
    /// The description of the action.
    pub open spec fn spec_description(self) -> Seq<char> {
        match self {
            PlayingAction::PlaySelectedCards => "Play selected cards"@,
            PlayingAction::DiscardSelectedCards => "Discard selected cards"@,
            PlayingAction::SelectCard(_) => "Select card"@,
            PlayingAction::DeselectCard(_) => "Deselect card"@,
            PlayingAction::MoveRight(_) => "Move right"@,
            PlayingAction::MoveLeft(_) => "Move left"@,
            PlayingAction::SortByRank => "Sort by rank"@,
            PlayingAction::SortBySuit => "Sort by suit"@,
        }
    }

    /// The hand position a card action carries; zero for the rest.
    pub open spec fn spec_card_index(self) -> int {
        match self {
            PlayingAction::SelectCard(idx) => idx as int,
            PlayingAction::DeselectCard(idx) => idx as int,
            PlayingAction::MoveRight(idx) => idx as int,
            PlayingAction::MoveLeft(idx) => idx as int,
            _ => 0,
        }
    }

    /// The position of this action in a displayed action list that starts
    /// at `start_index`: play first, discard second, card actions offset by
    /// their hand position.
    pub fn display_index(&self, start_index: u32) -> (r: u64)
        ensures
            r == match self {
                PlayingAction::PlaySelectedCards => start_index as int,
                PlayingAction::DiscardSelectedCards => start_index + 1,
                _ => crate::arith::cap(start_index + 2 + self.spec_card_index()),
            },
    {
        match self {
            PlayingAction::PlaySelectedCards => start_index as u64,
            PlayingAction::DiscardSelectedCards => (start_index as u64) + 1,
            _ => {
                let idx = self.card_index();
                crate::arith::add_sat((start_index as u64) + 2, idx as u64)
            },
        }
    }

    /// The hand position a card action carries; zero for the rest.
    pub fn card_index(&self) -> (r: usize)
        ensures
            r == self.spec_card_index(),
    {
        match self {
            PlayingAction::SelectCard(idx) => *idx,
            PlayingAction::DeselectCard(idx) => *idx,
            PlayingAction::MoveRight(idx) => *idx,
            PlayingAction::MoveLeft(idx) => *idx,
            _ => 0,
        }
    }
}

/// Actions available in the round-end phase.
#[derive(Debug, Clone, Copy, PartialEq, Eq, Structural)]
pub enum RoundEndAction {
    CashOut,
}

impl Action for RoundEndAction {
    fn index(&self) -> (r: u32)
        ensures
            r == 1,
    {
        1
    }

    fn description(&self) -> (r: &str)
        ensures
            r@ == "Cash Out"@,
    {
        "Cash Out"
    }

    fn is_valid(&self) -> (r: bool)
        ensures
            r,
    {
        true
    }
}

/// Actions available in the game-over phase.
#[derive(Debug, Clone, Copy, PartialEq, Eq, Structural)]
pub enum GameOverAction {
    PlayAgain,
    MainMenu,
    ViewFinalStatistics,
    Exit,
}

impl Action for GameOverAction {
    fn index(&self) -> (r: u32)
        ensures
            r == match self {
                GameOverAction::PlayAgain => 1int,
                GameOverAction::MainMenu => 2int,
                GameOverAction::ViewFinalStatistics => 3int,
                GameOverAction::Exit => 4int,
            },
    {
        match self {
            GameOverAction::PlayAgain => 1,
            GameOverAction::MainMenu => 2,
            GameOverAction::ViewFinalStatistics => 3,
            GameOverAction::Exit => 4,
        }
    }

    fn description(&self) -> (r: &str)
        ensures
            r@ == match self {
                GameOverAction::PlayAgain => "Play Again"@,
                GameOverAction::MainMenu => "Main Menu"@,
                GameOverAction::ViewFinalStatistics => "View Final Statistics"@,
                GameOverAction::Exit => "Exit"@,
            },
    {
        match self {
            GameOverAction::PlayAgain => "Play Again",
            GameOverAction::MainMenu => "Main Menu",
            GameOverAction::ViewFinalStatistics => "View Final Statistics",
            GameOverAction::Exit => "Exit",
        }
    }

    fn is_valid(&self) -> (r: bool)
        ensures
            r,
    {
        true
    }
}

/// The fixed order of all deck types.
pub open spec fn spec_deck_type_at(k: int) -> DeckType {
    if k == 0 {
        DeckType::Red
    } else if k == 1 {
        DeckType::Blue
    } else if k == 2 {
        DeckType::Yellow
    } else if k == 3 {
        DeckType::Green
    } else if k == 4 {
        DeckType::Black
    } else if k == 5 {
        DeckType::Magic
    } else if k == 6 {
        DeckType::Nebula
    } else if k == 7 {
        DeckType::Spectral
    } else if k == 8 {
        DeckType::Abandoned
    } else if k == 9 {
        DeckType::Checkered
    } else if k == 10 {
        DeckType::Zodiac
    } else if k == 11 {
        DeckType::Painted
    } else if k == 12 {
        DeckType::Anaglyph
    } else if k == 13 {
        DeckType::Plasma
    } else {
        DeckType::Erratic
    }
}

/// Get all available deck types, in the fixed order.
pub fn all_deck_types() -> (r: Vec<DeckType>)
    ensures
        r@.len() == 15,
        forall|k: int| 0 <= k < 15 ==> r@[k] == #[trigger] spec_deck_type_at(k),
{
    let mut out: Vec<DeckType> = Vec::new();
    out.push(DeckType::Red);
    out.push(DeckType::Blue);
    out.push(DeckType::Yellow);
    out.push(DeckType::Green);
    out.push(DeckType::Black);
    out.push(DeckType::Magic);
    out.push(DeckType::Nebula);
    out.push(DeckType::Spectral);
    out.push(DeckType::Abandoned);
    out.push(DeckType::Checkered);
    out.push(DeckType::Zodiac);
    out.push(DeckType::Painted);
    out.push(DeckType::Anaglyph);
    out.push(DeckType::Plasma);
    out.push(DeckType::Erratic);
    out
}

/// Get all available stake levels, in ascending order.
pub fn all_stake_levels() -> (r: Vec<StakeLevel>)
    ensures
        r@.len() == 8,
        forall|k: int| 0 <= k < 8 ==> r@[k] == #[trigger] crate::stakes::spec_level_at(k),
{
    let mut out: Vec<StakeLevel> = Vec::new();
    out.push(StakeLevel::White);
    out.push(StakeLevel::Red);
    out.push(StakeLevel::Green);
    out.push(StakeLevel::Blue);
    out.push(StakeLevel::Black);
    out.push(StakeLevel::Purple);
    out.push(StakeLevel::Orange);
    out.push(StakeLevel::Gold);
    out
}

/// Create the menu actions for deck selection: one per deck type, in the
/// fixed order.
pub fn create_deck_selection_actions() -> (r: Vec<MenuAction>)
    ensures
        r@.len() == 15,
        forall|k: int| 0 <= k < 15 ==> r@[k] == MenuAction::SelectDeck(#[trigger] spec_deck_type_at(k)),
{
    let types = all_deck_types();
    let n = types.len();
    let mut out: Vec<MenuAction> = Vec::new();
    let mut i: usize = 0;
    while i < n
        invariant
            i <= n,
            n == 15,
            types@.len() == 15,
            forall|k: int| 0 <= k < 15 ==> types@[k] == #[trigger] spec_deck_type_at(k),
            out@.len() == i,
            forall|k: int| 0 <= k < i ==> out@[k] == MenuAction::SelectDeck(#[trigger] spec_deck_type_at(k)),
        decreases n - i,
    {
        out.push(MenuAction::SelectDeck(types[i]));
        i = i + 1;
    }
    out
}

/// Create the menu actions for stake selection: one per stake level, in
/// ascending order.
pub fn create_stake_selection_actions() -> (r: Vec<MenuAction>)
    ensures
        r@.len() == 8,
        forall|k: int|
            0 <= k < 8 ==> r@[k] == MenuAction::SelectStake(
                #[trigger] crate::stakes::spec_level_at(k),
            ),
{
    let levels = all_stake_levels();
    let n = levels.len();
    let mut out: Vec<MenuAction> = Vec::new();
    let mut i: usize = 0;
    while i < n
        invariant
            i <= n,
            n == 8,
            levels@.len() == 8,
            forall|k: int| 0 <= k < 8 ==> levels@[k] == #[trigger] crate::stakes::spec_level_at(k),
            out@.len() == i,
            forall|k: int|
                0 <= k < i ==> out@[k] == MenuAction::SelectStake(
                    #[trigger] crate::stakes::spec_level_at(k),
                ),
        decreases n - i,
    {
        out.push(MenuAction::SelectStake(levels[i]));
        i = i + 1;
    }
    out
}

/// Create all menu actions: the deck selections, the stake selections,
/// starting the game, and exiting.
pub fn create_menu_actions() -> (r: Vec<MenuAction>)
    ensures
        r@.len() == 25,
        forall|k: int| 0 <= k < 15 ==> r@[k] == MenuAction::SelectDeck(#[trigger] spec_deck_type_at(k)),
        forall|k: int|
            15 <= k < 23 ==> r@[k] == MenuAction::SelectStake(
                #[trigger] crate::stakes::spec_level_at(k - 15),
            ),
        r@[23] == MenuAction::StartGame,
        r@[24] == MenuAction::Exit,
{
    let mut out = create_deck_selection_actions();
    let stakes = create_stake_selection_actions();
    let n = stakes.len();
    let mut i: usize = 0;
    while i < n
        invariant
            i <= n,
            n == 8,
            stakes@.len() == 8,
            forall|k: int|
                0 <= k < 8 ==> stakes@[k] == MenuAction::SelectStake(
                    #[trigger] crate::stakes::spec_level_at(k),
                ),
            out@.len() == 15 + i,
            forall|k: int|
                0 <= k < 15 ==> out@[k] == MenuAction::SelectDeck(#[trigger] spec_deck_type_at(k)),
            forall|k: int|
                15 <= k < 15 + i ==> out@[k] == MenuAction::SelectStake(
                    #[trigger] crate::stakes::spec_level_at(k - 15),
                ),
        decreases n - i,
    {
        out.push(stakes[i]);
        i = i + 1;
    }
    out.push(MenuAction::StartGame);
    out.push(MenuAction::Exit);
    out
}

/// Create all shop actions, numbered from zero.
pub fn create_shop_actions() -> (r: Vec<(u32, ShopAction)>)
    ensures
        r@.len() == 1,
        r@[0] == (0u32, ShopAction::NextRound),
{
    let mut out: Vec<(u32, ShopAction)> = Vec::new();
    out.push((0, ShopAction::NextRound));
    out
}

/// Create all blind-select actions.
pub fn create_blind_actions() -> (r: Vec<BlindAction>)
    ensures
        r@.len() == 4,
        r@[0] == BlindAction::SelectBossBlind,
        r@[1] == BlindAction::SelectEliteBlind,
        r@[2] == BlindAction::SelectNormalBlind,
        r@[3] == BlindAction::ViewBlindDetails,
{
    let mut out: Vec<BlindAction> = Vec::new();
    out.push(BlindAction::SelectBossBlind);
    out.push(BlindAction::SelectEliteBlind);
    out.push(BlindAction::SelectNormalBlind);
    out.push(BlindAction::ViewBlindDetails);
    out
}

/// Create all round-end actions, numbered from zero.
pub fn create_round_end_actions() -> (r: Vec<(u32, RoundEndAction)>)
    ensures
        r@.len() == 1,
        r@[0] == (0u32, RoundEndAction::CashOut),
{
    let mut out: Vec<(u32, RoundEndAction)> = Vec::new();
    out.push((0, RoundEndAction::CashOut));
    out
}

/// Create all game-over actions.
pub fn create_game_over_actions() -> (r: Vec<GameOverAction>)
    ensures
        r@.len() == 4,
        r@[0] == GameOverAction::PlayAgain,
        r@[1] == GameOverAction::MainMenu,
        r@[2] == GameOverAction::ViewFinalStatistics,
        r@[3] == GameOverAction::Exit,
{
    let mut out: Vec<GameOverAction> = Vec::new();
    out.push(GameOverAction::PlayAgain);
    out.push(GameOverAction::MainMenu);
    out.push(GameOverAction::ViewFinalStatistics);
    out.push(GameOverAction::Exit);
    out
}

/// Create the playing actions of the current hand state, numbered in
/// order: play, then discard when discards remain, then select or deselect
/// for each card (deselect for selected positions), then the move-right
/// actions, then the move-left actions, then the two sorts.
pub fn create_playing_actions(hand: &Hand, play_limits: &PlayLimits) -> (r: Vec<
    (u32, PlayingAction),
>)
    requires
        hand.cards@.len() + hand.cards@.len() + hand.cards@.len() + 10 < u32::MAX,
    ensures
        r@.len() >= 2,
        r@[0] == (0u32, PlayingAction::PlaySelectedCards),
        play_limits.n_discards_remaining > 0 ==> r@[1] == (1u32, PlayingAction::DiscardSelectedCards),
        forall|t: int| 0 <= t < r@.len() ==> (#[trigger] r@[t]).0 == t,
{
    let n = hand.len();
    let mut out: Vec<(u32, PlayingAction)> = Vec::new();
    let mut action_index: u32 = 0;
    out.push((action_index, PlayingAction::PlaySelectedCards));
    action_index = action_index + 1;
    if play_limits.has_discards_remaining() {
        out.push((action_index, PlayingAction::DiscardSelectedCards));
        action_index = action_index + 1;
    }
    let mut i: usize = 0;
    while i < n
        invariant
            i <= n,
            n == hand.cards@.len(),
            3 * n + 10 < u32::MAX,
            out@.len() == action_index,
            action_index <= 2 + i,
            out@.len() >= 1,
            out@[0] == (0u32, PlayingAction::PlaySelectedCards),
            play_limits.n_discards_remaining > 0 ==> out@.len() >= 2 && out@[1] == (
                1u32,
                PlayingAction::DiscardSelectedCards,
            ),
            forall|t: int| 0 <= t < out@.len() ==> (#[trigger] out@[t]).0 == t,
        decreases n - i,
    {
        if hand.is_selected(i) {
            out.push((action_index, PlayingAction::DeselectCard(i)));
        } else {
            out.push((action_index, PlayingAction::SelectCard(i)));
        }
        action_index = action_index + 1;
        i = i + 1;
    }
    let mut i: usize = 0;
    while i < n
        invariant
            i <= n,
            n == hand.cards@.len(),
            3 * n + 10 < u32::MAX,
            out@.len() == action_index,
            action_index <= 2 + n + i,
            out@.len() >= 1,
            out@[0] == (0u32, PlayingAction::PlaySelectedCards),
            play_limits.n_discards_remaining > 0 ==> out@.len() >= 2 && out@[1] == (
                1u32,
                PlayingAction::DiscardSelectedCards,
            ),
            forall|t: int| 0 <= t < out@.len() ==> (#[trigger] out@[t]).0 == t,
        decreases n - i,
    {
        if i + 1 < n {
            out.push((action_index, PlayingAction::MoveRight(i)));
            action_index = action_index + 1;
        }
        i = i + 1;
    }
    let mut i: usize = 0;
    while i < n
        invariant
            i <= n,
            n == hand.cards@.len(),
            3 * n + 10 < u32::MAX,
            out@.len() == action_index,
            action_index <= 2 + n + n + i,
            out@.len() >= 1,
            out@[0] == (0u32, PlayingAction::PlaySelectedCards),
            play_limits.n_discards_remaining > 0 ==> out@.len() >= 2 && out@[1] == (
                1u32,
                PlayingAction::DiscardSelectedCards,
            ),
            forall|t: int| 0 <= t < out@.len() ==> (#[trigger] out@[t]).0 == t,
        decreases n - i,
    {
        if i > 0 {
            out.push((action_index, PlayingAction::MoveLeft(i)));
            action_index = action_index + 1;
        }
        i = i + 1;
    }
    out.push((action_index, PlayingAction::SortByRank));
    action_index = action_index + 1;
    out.push((action_index, PlayingAction::SortBySuit));
    out
}

} // verus!

//! Code snippets of the script editor (`.spt` scripts of the engine):
//! buttons that append a ready-made section, condition or command.

use vstd::prelude::*;

verus! {

/// A snippet button of the script editor.
#[derive(Clone, Copy, Debug, PartialEq, Eq, Structural)]
pub enum Snippet {
    /// `LEVEL x (Секция)`
    LevelSection,
    /// `IF LEVEL = n (Условие)`
    IfLevel,
    /// `NEXT_LEVEL (Команда)`
    NextLevel,
    /// `ENTERING SCREEN x`
    EnteringScreen,
    /// `ENTERING GAME`
    EnteringGame,
    /// `ENTERING ANY`
    EnteringAny,
    /// `PRESS_FIRE SCREEN x`
    PressFireScreen,
    /// `PRESS_FIRE ANY`
    PressFireAny,
    /// `PLAYER_KILLS_ENEMY`
    PlayerKillsEnemy,
    /// `IF ... THEN ... END`
    IfThenEnd,
    /// `IF FLAG Compare`
    IfFlagCompare,
    /// `IF FLAG = n`
    IfFlagEq,
    /// `IF FLAG < n`
    IfFlagLt,
    /// `IF FLAG > n`
    IfFlagGt,
    /// `IF FLAG <> n`
    IfFlagNe,
    /// `IF FLAG = #n (флаг)`
    IfFlagEqFlag,
    /// `SET FLAG x = n`
    SetFlag,
    /// `INC FLAG x, n`
    IncFlag,
    /// `DEC FLAG x, n`
    DecFlag,
    /// `FLIPFLOP x`
    FlipFlop,
    /// `SWAP x, y`
    Swap,
    /// `PLAYER_TOUCHES`
    PlayerTouches,
    /// `PLAYER_IN_X (px)`
    PlayerInX,
    /// `PLAYER_IN_Y (px)`
    PlayerInY,
    /// `PLAYER_IN_X_TILES`
    PlayerInXTiles,
    /// `PLAYER_IN_Y_TILES`
    PlayerInYTiles,
    /// `IF NPANT n (экран)`
    IfNpant,
    /// `IF NPANT_NOT n`
    IfNpantNot,
    /// `SETX x (tile)`
    SetX,
    /// `SETY y (tile)`
    SetY,
    /// `WARP_TO n, x, y`
    WarpTo,
    /// `SET TILE`
    SetTile,
    /// `WIN GAME`
    WinGame,
    /// `BREAK`
    Break,
    /// `REENTER SCREEN`
    Reenter,
}

/// Character of a decimal digit.
pub open spec fn digit_char(d: nat) -> char {
    if d == 0 { '0' } else if d == 1 { '1' } else if d == 2 { '2' } else if d == 3 { '3' } else if d == 4 {
        '4'
    } else if d == 5 { '5' } else if d == 6 { '6' } else if d == 7 { '7' } else if d == 8 { '8' } else { '9' }
}

/// Decimal notation of a number, without leading zeros.
pub open spec fn decimal(n: nat) -> Seq<char>
    decreases n,
{
    if n < 10 {
        seq![digit_char(n)]
    } else {
        decimal(n / 10) + seq![digit_char(n % 10)]
    }
}

fn digit_str(d: usize) -> (r: &'static str)
    requires
        d < 10,
    ensures
        r@ == seq![digit_char(d as nat)],
{
    proof {
        reveal_strlit("0");
        reveal_strlit("1");
        reveal_strlit("2");
        reveal_strlit("3");
        reveal_strlit("4");
        reveal_strlit("5");
        reveal_strlit("6");
        reveal_strlit("7");
        reveal_strlit("8");
        reveal_strlit("9");
    }
    let r = match d {
        0 => "0",
        1 => "1",
        2 => "2",
        3 => "3",
        4 => "4",
        5 => "5",
        6 => "6",
        7 => "7",
        8 => "8",
        _ => "9",
    };
    assert(r@ =~= seq![digit_char(d as nat)]);
    r
}

/// Appends the decimal notation of a 64-bit `n`.
pub fn push_decimal_u64(s: &mut String, n: u64)
    ensures
        final(s)@ == old(s)@ + decimal(n as nat),
    decreases n,
{
    if n >= 10 {
        push_decimal_u64(s, n / 10);
    }
    s.append(digit_str((n % 10) as usize));
    assert(final(s)@ =~= old(s)@ + decimal(n as nat)) by {
        if n >= 10 {
            assert(decimal(n as nat) == decimal((n / 10) as nat) + seq![digit_char((n % 10) as nat)]);
        }
    }
}

/// Appends the decimal notation of `n`.
pub fn push_decimal(s: &mut String, n: usize)
    ensures
        final(s)@ == old(s)@ + decimal(n as nat),
    decreases n,
{
    if n >= 10 {
        push_decimal(s, n / 10);
    }
    s.append(digit_str(n % 10));
    assert(final(s)@ =~= old(s)@ + decimal(n as nat)) by {
        if n >= 10 {
            assert(decimal(n as nat) == decimal((n / 10) as nat) + seq![digit_char((n % 10) as nat)]);
        }
    }
}

/// The text a snippet appends; the screen sections name the screen
/// selected in the map editor.
pub open spec fn snippet_text(s: Snippet, screen: nat) -> Seq<char> {
    match s {
        Snippet::LevelSection => "\n\nLEVEL 0\nBEGIN\nEND"@,
        Snippet::IfLevel => "\n\tIF LEVEL = 0\n\tTHEN\n\t\t\n\tEND"@,
        Snippet::NextLevel => "\n\t\tNEXT_LEVEL"@,
        Snippet::EnteringGame => "\n\nENTERING GAME\nBEGIN\nEND"@,
        Snippet::EnteringAny => "\n\nENTERING ANY\nBEGIN\nEND"@,
        Snippet::PressFireAny => "\n\nPRESS_FIRE AT ANY\nBEGIN\nEND"@,
        Snippet::PlayerKillsEnemy => "\n\nPLAYER_KILLS_ENEMY\nBEGIN\nEND"@,
        Snippet::IfThenEnd => "\n\tIF TRUE\n\tTHEN\n\t\t\n\tEND"@,
        Snippet::IfFlagCompare => "\n\tIF FLAG 1 = 0\n\tTHEN\n\t\t\n\tEND"@,
        Snippet::IfFlagEq => "\n\tIF FLAG 1 = 0"@,
        Snippet::IfFlagLt => "\n\tIF FLAG 1 < 5"@,
        Snippet::IfFlagGt => "\n\tIF FLAG 1 > 0"@,
        Snippet::IfFlagNe => "\n\tIF FLAG 1 <> 10"@,
        Snippet::IfFlagEqFlag => "\n\tIF FLAG 5 = #3"@,
        Snippet::SetFlag => "\n\t\tSET FLAG 1 = 1"@,
        Snippet::IncFlag => "\n\t\tINC FLAG 1, 1"@,
        Snippet::DecFlag => "\n\t\tDEC FLAG 1, 1"@,
        Snippet::FlipFlop => "\n\t\tFLIPFLOP 1"@,
        Snippet::Swap => "\n\t\tSWAP 1, 2"@,
        Snippet::PlayerTouches => "\n\tIF PLAYER_TOUCHES (7, 5)"@,
        Snippet::PlayerInX => "\n\tIF PLAYER_IN_X 32, 64"@,
        Snippet::PlayerInY => "\n\tIF PLAYER_IN_Y 16, 48"@,
        Snippet::PlayerInXTiles => "\n\tIF PLAYER_IN_X_TILES 0, 5"@,
        Snippet::PlayerInYTiles => "\n\tIF PLAYER_IN_Y_TILES 0, 4"@,
        Snippet::IfNpant => "\n\tIF NPANT 5"@,
        Snippet::IfNpantNot => "\n\tIF NPANT_NOT 0"@,
        Snippet::SetX => "\n\t\tSETX 7"@,
        Snippet::SetY => "\n\t\tSETY 5"@,
        Snippet::WarpTo => "\n\t\tWARP_TO 2, 7, 5"@,
        Snippet::SetTile => "\n\t\tSET TILE (0, 0) = 14"@,
        Snippet::WinGame => "\n\t\tWIN GAME"@,
        Snippet::Break => "\n\t\tBREAK"@,
        Snippet::Reenter => "\n\t\tREENTER"@,
        Snippet::EnteringScreen => "\n\nENTERING SCREEN "@ + decimal(screen) + "\nBEGIN\nEND"@,
        Snippet::PressFireScreen => "\n\nPRESS_FIRE AT SCREEN "@ + decimal(screen) + "\nBEGIN\nEND"@,
    }
}

/// Appends a snippet to the script text.
pub fn insert_snippet(script: &mut String, s: Snippet, selected_screen: usize)
    ensures
        final(script)@ == old(script)@ + snippet_text(s, selected_screen as nat),
{
    match s {
        Snippet::LevelSection => script.append("\n\nLEVEL 0\nBEGIN\nEND"),
        Snippet::IfLevel => script.append("\n\tIF LEVEL = 0\n\tTHEN\n\t\t\n\tEND"),
        Snippet::NextLevel => script.append("\n\t\tNEXT_LEVEL"),
        Snippet::EnteringGame => script.append("\n\nENTERING GAME\nBEGIN\nEND"),
        Snippet::EnteringAny => script.append("\n\nENTERING ANY\nBEGIN\nEND"),
        Snippet::PressFireAny => script.append("\n\nPRESS_FIRE AT ANY\nBEGIN\nEND"),
        Snippet::PlayerKillsEnemy => script.append("\n\nPLAYER_KILLS_ENEMY\nBEGIN\nEND"),
        Snippet::IfThenEnd => script.append("\n\tIF TRUE\n\tTHEN\n\t\t\n\tEND"),
        Snippet::IfFlagCompare => script.append("\n\tIF FLAG 1 = 0\n\tTHEN\n\t\t\n\tEND"),
        Snippet::IfFlagEq => script.append("\n\tIF FLAG 1 = 0"),
        Snippet::IfFlagLt => script.append("\n\tIF FLAG 1 < 5"),
        Snippet::IfFlagGt => script.append("\n\tIF FLAG 1 > 0"),
        Snippet::IfFlagNe => script.append("\n\tIF FLAG 1 <> 10"),
        Snippet::IfFlagEqFlag => script.append("\n\tIF FLAG 5 = #3"),
        Snippet::SetFlag => script.append("\n\t\tSET FLAG 1 = 1"),
        Snippet::IncFlag => script.append("\n\t\tINC FLAG 1, 1"),
        Snippet::DecFlag => script.append("\n\t\tDEC FLAG 1, 1"),
        Snippet::FlipFlop => script.append("\n\t\tFLIPFLOP 1"),
        Snippet::Swap => script.append("\n\t\tSWAP 1, 2"),
        Snippet::PlayerTouches => script.append("\n\tIF PLAYER_TOUCHES (7, 5)"),
        Snippet::PlayerInX => script.append("\n\tIF PLAYER_IN_X 32, 64"),
        Snippet::PlayerInY => script.append("\n\tIF PLAYER_IN_Y 16, 48"),
        Snippet::PlayerInXTiles => script.append("\n\tIF PLAYER_IN_X_TILES 0, 5"),
        Snippet::PlayerInYTiles => script.append("\n\tIF PLAYER_IN_Y_TILES 0, 4"),
        Snippet::IfNpant => script.append("\n\tIF NPANT 5"),
        Snippet::IfNpantNot => script.append("\n\tIF NPANT_NOT 0"),
        Snippet::SetX => script.append("\n\t\tSETX 7"),
        Snippet::SetY => script.append("\n\t\tSETY 5"),
        Snippet::WarpTo => script.append("\n\t\tWARP_TO 2, 7, 5"),
        Snippet::SetTile => script.append("\n\t\tSET TILE (0, 0) = 14"),
        Snippet::WinGame => script.append("\n\t\tWIN GAME"),
        Snippet::Break => script.append("\n\t\tBREAK"),
        Snippet::Reenter => script.append("\n\t\tREENTER"),
        Snippet::EnteringScreen => {
            script.append("\n\nENTERING SCREEN ");
            push_decimal(script, selected_screen);
            script.append("\nBEGIN\nEND");
        },
        Snippet::PressFireScreen => {
            script.append("\n\nPRESS_FIRE AT SCREEN ");
            push_decimal(script, selected_screen);
            script.append("\nBEGIN\nEND");
        },
    }
    assert(final(script)@ =~= old(script)@ + snippet_text(s, selected_screen as nat));
}

/// The button label of a snippet.
pub fn snippet_label(s: Snippet) -> (r: &'static str)
    ensures
        r@ == match s {
            Snippet::LevelSection => "LEVEL x (Секция)"@,
            Snippet::IfLevel => "IF LEVEL = n (Условие)"@,
            Snippet::NextLevel => "NEXT_LEVEL (Команда)"@,
            Snippet::EnteringScreen => "ENTERING SCREEN x"@,
            Snippet::EnteringGame => "ENTERING GAME"@,
            Snippet::EnteringAny => "ENTERING ANY"@,
            Snippet::PressFireScreen => "PRESS_FIRE SCREEN x"@,
            Snippet::PressFireAny => "PRESS_FIRE ANY"@,
            Snippet::PlayerKillsEnemy => "PLAYER_KILLS_ENEMY"@,
            Snippet::IfThenEnd => "IF ... THEN ... END"@,
            Snippet::IfFlagCompare => "IF FLAG Compare"@,
            Snippet::IfFlagEq => "IF FLAG = n"@,
            Snippet::IfFlagLt => "IF FLAG < n"@,
            Snippet::IfFlagGt => "IF FLAG > n"@,
            Snippet::IfFlagNe => "IF FLAG <> n"@,
            Snippet::IfFlagEqFlag => "IF FLAG = #n (флаг)"@,
            Snippet::SetFlag => "SET FLAG x = n"@,
            Snippet::IncFlag => "INC FLAG x, n"@,
            Snippet::DecFlag => "DEC FLAG x, n"@,
            Snippet::FlipFlop => "FLIPFLOP x"@,
            Snippet::Swap => "SWAP x, y"@,
            Snippet::PlayerTouches => "PLAYER_TOUCHES"@,
            Snippet::PlayerInX => "PLAYER_IN_X (px)"@,
            Snippet::PlayerInY => "PLAYER_IN_Y (px)"@,
            Snippet::PlayerInXTiles => "PLAYER_IN_X_TILES"@,
            Snippet::PlayerInYTiles => "PLAYER_IN_Y_TILES"@,
            Snippet::IfNpant => "IF NPANT n (экран)"@,
            Snippet::IfNpantNot => "IF NPANT_NOT n"@,
            Snippet::SetX => "SETX x (tile)"@,
            Snippet::SetY => "SETY y (tile)"@,
            Snippet::WarpTo => "WARP_TO n, x, y"@,
            Snippet::SetTile => "SET TILE"@,
            Snippet::WinGame => "WIN GAME"@,
            Snippet::Break => "BREAK"@,
            Snippet::Reenter => "REENTER SCREEN"@,
        },
{
    match s {
        Snippet::LevelSection => "LEVEL x (Секция)",
        Snippet::IfLevel => "IF LEVEL = n (Условие)",
        Snippet::NextLevel => "NEXT_LEVEL (Команда)",
        Snippet::EnteringScreen => "ENTERING SCREEN x",
        Snippet::EnteringGame => "ENTERING GAME",
        Snippet::EnteringAny => "ENTERING ANY",
        Snippet::PressFireScreen => "PRESS_FIRE SCREEN x",
        Snippet::PressFireAny => "PRESS_FIRE ANY",
        Snippet::PlayerKillsEnemy => "PLAYER_KILLS_ENEMY",
        Snippet::IfThenEnd => "IF ... THEN ... END",
        Snippet::IfFlagCompare => "IF FLAG Compare",
        Snippet::IfFlagEq => "IF FLAG = n",
        Snippet::IfFlagLt => "IF FLAG < n",
        Snippet::IfFlagGt => "IF FLAG > n",
        Snippet::IfFlagNe => "IF FLAG <> n",
        Snippet::IfFlagEqFlag => "IF FLAG = #n (флаг)",
        Snippet::SetFlag => "SET FLAG x = n",
        Snippet::IncFlag => "INC FLAG x, n",
        Snippet::DecFlag => "DEC FLAG x, n",
        Snippet::FlipFlop => "FLIPFLOP x",
        Snippet::Swap => "SWAP x, y",
        Snippet::PlayerTouches => "PLAYER_TOUCHES",
        Snippet::PlayerInX => "PLAYER_IN_X (px)",
        Snippet::PlayerInY => "PLAYER_IN_Y (px)",
        Snippet::PlayerInXTiles => "PLAYER_IN_X_TILES",
        Snippet::PlayerInYTiles => "PLAYER_IN_Y_TILES",
        Snippet::IfNpant => "IF NPANT n (экран)",
        Snippet::IfNpantNot => "IF NPANT_NOT n",
        Snippet::SetX => "SETX x (tile)",
        Snippet::SetY => "SETY y (tile)",
        Snippet::WarpTo => "WARP_TO n, x, y",
        Snippet::SetTile => "SET TILE",
        Snippet::WinGame => "WIN GAME",
        Snippet::Break => "BREAK",
        Snippet::Reenter => "REENTER SCREEN",
    }
}

} // verus!

//! Name tables for the wire vocabulary: the canonical name of each unit
//! value, the names and documented aliases a decoder accepts, and proofs
//! that decoding a canonical name gives the value back.
//!
//! Encoders emit the canonical name only; decoders accept every listed
//! alias.

use vstd::prelude::*;

use crate::strutil::chars_eq_lit;
use crate::wire::Axis;
use crate::wire::Button;
use crate::wire::Coordinate;
use crate::wire::Direction;

verus! {

/// The payload-carrying kind a token object's key names.
#[derive(Clone, Copy, Debug, PartialEq, Eq, Structural)]
pub enum TokenTag {
    Text,
    Key,
    Raw,
    Button,
    MoveMouse,
    Scroll,
    Location,
    MainDisplay,
}

/// The escape-hatch kind a key object's key names.
#[derive(Clone, Copy, Debug, PartialEq, Eq, Structural)]
pub enum KeyTag {
    Unicode,
    Other,
}

/// The payload-carrying requests.
#[derive(Clone, Copy, Debug, PartialEq, Eq, Structural)]
pub enum InputTag {
    CaptureScreen,
    DoInput,
    DoTypeText,
    FindText,
    FindImage,
    SetClipboardText,
}

/// The payload-free requests, which travel as bare strings.
#[derive(Clone, Copy, Debug, PartialEq, Eq, Structural)]
pub enum InputUnit {
    GetScreens,
    GetMainScreen,
    GetMouseLocation,
    GetClipboardText,
}

/// The payload-carrying responses.
#[derive(Clone, Copy, Debug, PartialEq, Eq, Structural)]
pub enum OutputTag {
    GotScreens,
    GotMainScreen,
    CapturedScreen,
    GotMouseLocation,
    FoundText,
    FoundImage,
    GotClipboardText,
    ErrorReply,
}

/// The payload-free responses, which travel as bare strings.
#[derive(Clone, Copy, Debug, PartialEq, Eq, Structural)]
pub enum OutputUnit {
    DidInput,
    DidTypeText,
    DidSetClipboardText,
}

/// The canonical wire name of a `Direction`.
pub open spec fn spec_direction_name(v: Direction) -> Seq<char> {
    match v {
        Direction::Press => "Press"@,
        Direction::Release => "Release"@,
        Direction::Click => "Click"@,
    }
}

/// The canonical wire name of a `Direction`.
pub fn direction_name_str(v: &Direction) -> (r: &'static str)
    ensures
        r@ == spec_direction_name(*v),
{
    match v {
        Direction::Press => "Press",
        Direction::Release => "Release",
        Direction::Click => "Click",
    }
}

/// The `Direction` a wire name denotes: each canonical name, then each
/// documented alias.
pub open spec fn spec_direction_of_name(t: Seq<char>) -> Option<Direction> {
    if t == "Press"@ {
        Some(Direction::Press)
    } else if t == "Release"@ {
        Some(Direction::Release)
    } else if t == "Click"@ {
        Some(Direction::Click)
    } else if t == "P"@ {
        Some(Direction::Press)
    } else if t == "p"@ {
        Some(Direction::Press)
    } else if t == "Pressed"@ {
        Some(Direction::Press)
    } else if t == "pressed"@ {
        Some(Direction::Press)
    } else if t == "R"@ {
        Some(Direction::Release)
    } else if t == "r"@ {
        Some(Direction::Release)
    } else if t == "Released"@ {
        Some(Direction::Release)
    } else if t == "released"@ {
        Some(Direction::Release)
    } else if t == "C"@ {
        Some(Direction::Click)
    } else if t == "c"@ {
        Some(Direction::Click)
    } else if t == "Clicked"@ {
        Some(Direction::Click)
    } else if t == "clicked"@ {
        Some(Direction::Click)
    } else {
        None
    }
}

/// The `Direction` a wire name denotes; see the spec of the same name.
pub fn direction_of_chars(t: &[char]) -> (r: Option<Direction>)
    ensures
        r == spec_direction_of_name(t@),
{
    if chars_eq_lit(t, "Press") {
        Some(Direction::Press)
    } else if chars_eq_lit(t, "Release") {
        Some(Direction::Release)
    } else if chars_eq_lit(t, "Click") {
        Some(Direction::Click)
    } else if chars_eq_lit(t, "P") {
        Some(Direction::Press)
    } else if chars_eq_lit(t, "p") {
        Some(Direction::Press)
    } else if chars_eq_lit(t, "Pressed") {
        Some(Direction::Press)
    } else if chars_eq_lit(t, "pressed") {
        Some(Direction::Press)
    } else if chars_eq_lit(t, "R") {
        Some(Direction::Release)
    } else if chars_eq_lit(t, "r") {
        Some(Direction::Release)
    } else if chars_eq_lit(t, "Released") {
        Some(Direction::Release)
    } else if chars_eq_lit(t, "released") {
        Some(Direction::Release)
    } else if chars_eq_lit(t, "C") {
        Some(Direction::Click)
    } else if chars_eq_lit(t, "c") {
        Some(Direction::Click)
    } else if chars_eq_lit(t, "Clicked") {
        Some(Direction::Click)
    } else if chars_eq_lit(t, "clicked") {
        Some(Direction::Click)
    } else {
        None
    }
}

/// Decoding the canonical name of a `Direction` yields the value back.
#[verifier::rlimit(50)]
pub proof fn lemma_direction_name_rt(v: Direction)
    ensures
        spec_direction_of_name(spec_direction_name(v)) == Some(v),
{
    reveal_strlit("Press");
    reveal_strlit("Release");
    reveal_strlit("Click");
    assert("Press"@.len() == 5);
    assert("Press"@[0] == 'P');
    assert("Release"@.len() == 7);
    assert("Click"@.len() == 5);
    assert("Click"@[0] == 'C');
}

/// Every documented alias decodes to the same value as the
/// canonical name.
#[verifier::rlimit(50)]
pub proof fn lemma_direction_press_aliases()
    ensures
        spec_direction_of_name("P"@) == spec_direction_of_name("Press"@),
        spec_direction_of_name("p"@) == spec_direction_of_name("Press"@),
        spec_direction_of_name("Pressed"@) == spec_direction_of_name("Press"@),
        spec_direction_of_name("pressed"@) == spec_direction_of_name("Press"@),
{
    reveal_strlit("Press");
    reveal_strlit("Release");
    reveal_strlit("Click");
    reveal_strlit("P");
    reveal_strlit("p");
    reveal_strlit("Pressed");
    reveal_strlit("pressed");
    reveal_strlit("R");
    reveal_strlit("r");
    reveal_strlit("Released");
    reveal_strlit("released");
    reveal_strlit("C");
    reveal_strlit("c");
    reveal_strlit("Clicked");
    reveal_strlit("clicked");
    assert("P"@.len() == 1);
    assert("P"@[0] == 'P');
    assert("Press"@.len() == 5);
    assert("Pressed"@.len() == 7);
    assert("Pressed"@[0] == 'P');
    assert("Release"@.len() == 7);
    assert("Release"@[0] == 'R');
    assert("p"@.len() == 1);
    assert("p"@[0] == 'p');
    assert("pressed"@.len() == 7);
    assert("pressed"@[0] == 'p');
}

/// The canonical wire name of a `Button`.
pub open spec fn spec_button_name(v: Button) -> Seq<char> {
    match v {
        Button::Left => "Left"@,
        Button::Middle => "Middle"@,
        Button::Right => "Right"@,
        Button::Back => "Back"@,
        Button::Forward => "Forward"@,
        Button::ScrollUp => "ScrollUp"@,
        Button::ScrollDown => "ScrollDown"@,
        Button::ScrollLeft => "ScrollLeft"@,
        Button::ScrollRight => "ScrollRight"@,
    }
}

/// The canonical wire name of a `Button`.
pub fn button_name_str(v: &Button) -> (r: &'static str)
    ensures
        r@ == spec_button_name(*v),
{
    match v {
        Button::Left => "Left",
        Button::Middle => "Middle",
        Button::Right => "Right",
        Button::Back => "Back",
        Button::Forward => "Forward",
        Button::ScrollUp => "ScrollUp",
        Button::ScrollDown => "ScrollDown",
        Button::ScrollLeft => "ScrollLeft",
        Button::ScrollRight => "ScrollRight",
    }
}

/// The `Button` a wire name denotes: each canonical name, then each
/// documented alias.
pub open spec fn spec_button_of_name(t: Seq<char>) -> Option<Button> {
    if t == "Left"@ {
        Some(Button::Left)
    } else if t == "Middle"@ {
        Some(Button::Middle)
    } else if t == "Right"@ {
        Some(Button::Right)
    } else if t == "Back"@ {
        Some(Button::Back)
    } else if t == "Forward"@ {
        Some(Button::Forward)
    } else if t == "ScrollUp"@ {
        Some(Button::ScrollUp)
    } else if t == "ScrollDown"@ {
        Some(Button::ScrollDown)
    } else if t == "ScrollLeft"@ {
        Some(Button::ScrollLeft)
    } else if t == "ScrollRight"@ {
        Some(Button::ScrollRight)
    } else if t == "L"@ {
        Some(Button::Left)
    } else if t == "l"@ {
        Some(Button::Left)
    } else if t == "M"@ {
        Some(Button::Middle)
    } else if t == "m"@ {
        Some(Button::Middle)
    } else if t == "R"@ {
        Some(Button::Right)
    } else if t == "r"@ {
        Some(Button::Right)
    } else if t == "B"@ {
        Some(Button::Back)
    } else if t == "b"@ {
        Some(Button::Back)
    } else if t == "F"@ {
        Some(Button::Forward)
    } else if t == "f"@ {
        Some(Button::Forward)
    } else if t == "SU"@ {
        Some(Button::ScrollUp)
    } else if t == "su"@ {
        Some(Button::ScrollUp)
    } else if t == "SD"@ {
        Some(Button::ScrollDown)
    } else if t == "sd"@ {
        Some(Button::ScrollDown)
    } else if t == "SL"@ {
        Some(Button::ScrollLeft)
    } else if t == "sl"@ {
        Some(Button::ScrollLeft)
    } else if t == "SR"@ {
        Some(Button::ScrollRight)
    } else if t == "sr"@ {
        Some(Button::ScrollRight)
    } else {
        None
    }
}

/// The `Button` a wire name denotes; see the spec of the same name.
pub fn button_of_chars(t: &[char]) -> (r: Option<Button>)
    ensures
        r == spec_button_of_name(t@),
{
    if chars_eq_lit(t, "Left") {
        Some(Button::Left)
    } else if chars_eq_lit(t, "Middle") {
        Some(Button::Middle)
    } else if chars_eq_lit(t, "Right") {
        Some(Button::Right)
    } else if chars_eq_lit(t, "Back") {
        Some(Button::Back)
    } else if chars_eq_lit(t, "Forward") {
        Some(Button::Forward)
    } else if chars_eq_lit(t, "ScrollUp") {
        Some(Button::ScrollUp)
    } else if chars_eq_lit(t, "ScrollDown") {
        Some(Button::ScrollDown)
    } else if chars_eq_lit(t, "ScrollLeft") {
        Some(Button::ScrollLeft)
    } else if chars_eq_lit(t, "ScrollRight") {
        Some(Button::ScrollRight)
    } else if chars_eq_lit(t, "L") {
        Some(Button::Left)
    } else if chars_eq_lit(t, "l") {
        Some(Button::Left)
    } else if chars_eq_lit(t, "M") {
        Some(Button::Middle)
    } else if chars_eq_lit(t, "m") {
        Some(Button::Middle)
    } else if chars_eq_lit(t, "R") {
        Some(Button::Right)
    } else if chars_eq_lit(t, "r") {
        Some(Button::Right)
    } else if chars_eq_lit(t, "B") {
        Some(Button::Back)
    } else if chars_eq_lit(t, "b") {
        Some(Button::Back)
    } else if chars_eq_lit(t, "F") {
        Some(Button::Forward)
    } else if chars_eq_lit(t, "f") {
        Some(Button::Forward)
    } else if chars_eq_lit(t, "SU") {
        Some(Button::ScrollUp)
    } else if chars_eq_lit(t, "su") {
        Some(Button::ScrollUp)
    } else if chars_eq_lit(t, "SD") {
        Some(Button::ScrollDown)
    } else if chars_eq_lit(t, "sd") {
        Some(Button::ScrollDown)
    } else if chars_eq_lit(t, "SL") {
        Some(Button::ScrollLeft)
    } else if chars_eq_lit(t, "sl") {
        Some(Button::ScrollLeft)
    } else if chars_eq_lit(t, "SR") {
        Some(Button::ScrollRight)
    } else if chars_eq_lit(t, "sr") {
        Some(Button::ScrollRight)
    } else {
        None
    }
}

/// Decoding the canonical name of a `Button` yields the value back.
#[verifier::rlimit(50)]
pub proof fn lemma_button_name_rt(v: Button)
    ensures
        spec_button_of_name(spec_button_name(v)) == Some(v),
{
    reveal_strlit("Left");
    reveal_strlit("Middle");
    reveal_strlit("Right");
    reveal_strlit("Back");
    reveal_strlit("Forward");
    reveal_strlit("ScrollUp");
    reveal_strlit("ScrollDown");
    reveal_strlit("ScrollLeft");
    reveal_strlit("ScrollRight");
    assert("Left"@.len() == 4);
    assert("Left"@[0] == 'L');
    assert("Middle"@.len() == 6);
    assert("Right"@.len() == 5);
    assert("Back"@.len() == 4);
    assert("Back"@[0] == 'B');
    assert("Forward"@.len() == 7);
    assert("ScrollUp"@.len() == 8);
    assert("ScrollDown"@.len() == 10);
    assert("ScrollDown"@[6] == 'D');
    assert("ScrollLeft"@.len() == 10);
    assert("ScrollLeft"@[6] == 'L');
    assert("ScrollRight"@.len() == 11);
}

/// The canonical wire name of a `Coordinate`.
pub open spec fn spec_coordinate_name(v: Coordinate) -> Seq<char> {
    match v {
        Coordinate::Abs => "Abs"@,
        Coordinate::Rel => "Rel"@,
    }
}

/// The canonical wire name of a `Coordinate`.
pub fn coordinate_name_str(v: &Coordinate) -> (r: &'static str)
    ensures
        r@ == spec_coordinate_name(*v),
{
    match v {
        Coordinate::Abs => "Abs",
        Coordinate::Rel => "Rel",
    }
}

/// The `Coordinate` a wire name denotes: each canonical name, then each
/// documented alias.
pub open spec fn spec_coordinate_of_name(t: Seq<char>) -> Option<Coordinate> {
    if t == "Abs"@ {
        Some(Coordinate::Abs)
    } else if t == "Rel"@ {
        Some(Coordinate::Rel)
    } else if t == "A"@ {
        Some(Coordinate::Abs)
    } else if t == "a"@ {
        Some(Coordinate::Abs)
    } else if t == "R"@ {
        Some(Coordinate::Rel)
    } else if t == "r"@ {
        Some(Coordinate::Rel)
    } else {
        None
    }
}

/// The `Coordinate` a wire name denotes; see the spec of the same name.
pub fn coordinate_of_chars(t: &[char]) -> (r: Option<Coordinate>)
    ensures
        r == spec_coordinate_of_name(t@),
{
    if chars_eq_lit(t, "Abs") {
        Some(Coordinate::Abs)
    } else if chars_eq_lit(t, "Rel") {
        Some(Coordinate::Rel)
    } else if chars_eq_lit(t, "A") {
        Some(Coordinate::Abs)
    } else if chars_eq_lit(t, "a") {
        Some(Coordinate::Abs)
    } else if chars_eq_lit(t, "R") {
        Some(Coordinate::Rel)
    } else if chars_eq_lit(t, "r") {
        Some(Coordinate::Rel)
    } else {
        None
    }
}

/// Decoding the canonical name of a `Coordinate` yields the value back.
#[verifier::rlimit(50)]
pub proof fn lemma_coordinate_name_rt(v: Coordinate)
    ensures
        spec_coordinate_of_name(spec_coordinate_name(v)) == Some(v),
{
    reveal_strlit("Abs");
    reveal_strlit("Rel");
    assert("Abs"@.len() == 3);
    assert("Abs"@[0] == 'A');
    assert("Rel"@.len() == 3);
    assert("Rel"@[0] == 'R');
}

/// The canonical wire name of a `Axis`.
pub open spec fn spec_axis_name(v: Axis) -> Seq<char> {
    match v {
        Axis::Horizontal => "Horizontal"@,
        Axis::Vertical => "Vertical"@,
    }
}

/// The canonical wire name of a `Axis`.
pub fn axis_name_str(v: &Axis) -> (r: &'static str)
    ensures
        r@ == spec_axis_name(*v),
{
    match v {
        Axis::Horizontal => "Horizontal",
        Axis::Vertical => "Vertical",
    }
}

/// The `Axis` a wire name denotes: each canonical name, then each
/// documented alias.
pub open spec fn spec_axis_of_name(t: Seq<char>) -> Option<Axis> {
    if t == "Horizontal"@ {
        Some(Axis::Horizontal)
    } else if t == "Vertical"@ {
        Some(Axis::Vertical)
    } else if t == "H"@ {
        Some(Axis::Horizontal)
    } else if t == "h"@ {
        Some(Axis::Horizontal)
    } else if t == "V"@ {
        Some(Axis::Vertical)
    } else if t == "v"@ {
        Some(Axis::Vertical)
    } else {
        None
    }
}

/// The `Axis` a wire name denotes; see the spec of the same name.
pub fn axis_of_chars(t: &[char]) -> (r: Option<Axis>)
    ensures
        r == spec_axis_of_name(t@),
{
    if chars_eq_lit(t, "Horizontal") {
        Some(Axis::Horizontal)
    } else if chars_eq_lit(t, "Vertical") {
        Some(Axis::Vertical)
    } else if chars_eq_lit(t, "H") {
        Some(Axis::Horizontal)
    } else if chars_eq_lit(t, "h") {
        Some(Axis::Horizontal)
    } else if chars_eq_lit(t, "V") {
        Some(Axis::Vertical)
    } else if chars_eq_lit(t, "v") {
        Some(Axis::Vertical)
    } else {
        None
    }
}

/// Decoding the canonical name of a `Axis` yields the value back.
#[verifier::rlimit(50)]
pub proof fn lemma_axis_name_rt(v: Axis)
    ensures
        spec_axis_of_name(spec_axis_name(v)) == Some(v),
{
    reveal_strlit("Horizontal");
    reveal_strlit("Vertical");
    assert("Horizontal"@.len() == 10);
    assert("Vertical"@.len() == 8);
}

/// The canonical wire name of a `TokenTag`.
pub open spec fn spec_token_tag_name(v: TokenTag) -> Seq<char> {
    match v {
        TokenTag::Text => "Text"@,
        TokenTag::Key => "Key"@,
        TokenTag::Raw => "Raw"@,
        TokenTag::Button => "Button"@,
        TokenTag::MoveMouse => "MoveMouse"@,
        TokenTag::Scroll => "Scroll"@,
        TokenTag::Location => "Location"@,
        TokenTag::MainDisplay => "MainDisplay"@,
    }
}

/// The canonical wire name of a `TokenTag`.
pub fn token_tag_name_str(v: &TokenTag) -> (r: &'static str)
    ensures
        r@ == spec_token_tag_name(*v),
{
    match v {
        TokenTag::Text => "Text",
        TokenTag::Key => "Key",
        TokenTag::Raw => "Raw",
        TokenTag::Button => "Button",
        TokenTag::MoveMouse => "MoveMouse",
        TokenTag::Scroll => "Scroll",
        TokenTag::Location => "Location",
        TokenTag::MainDisplay => "MainDisplay",
    }
}

/// The `TokenTag` a wire name denotes: each canonical name, then each
/// documented alias.
pub open spec fn spec_token_tag_of_name(t: Seq<char>) -> Option<TokenTag> {
    if t == "Text"@ {
        Some(TokenTag::Text)
    } else if t == "Key"@ {
        Some(TokenTag::Key)
    } else if t == "Raw"@ {
        Some(TokenTag::Raw)
    } else if t == "Button"@ {
        Some(TokenTag::Button)
    } else if t == "MoveMouse"@ {
        Some(TokenTag::MoveMouse)
    } else if t == "Scroll"@ {
        Some(TokenTag::Scroll)
    } else if t == "Location"@ {
        Some(TokenTag::Location)
    } else if t == "MainDisplay"@ {
        Some(TokenTag::MainDisplay)
    } else if t == "T"@ {
        Some(TokenTag::Text)
    } else if t == "t"@ {
        Some(TokenTag::Text)
    } else if t == "K"@ {
        Some(TokenTag::Key)
    } else if t == "k"@ {
        Some(TokenTag::Key)
    } else if t == "R"@ {
        Some(TokenTag::Raw)
    } else if t == "r"@ {
        Some(TokenTag::Raw)
    } else if t == "B"@ {
        Some(TokenTag::Button)
    } else if t == "b"@ {
        Some(TokenTag::Button)
    } else if t == "M"@ {
        Some(TokenTag::MoveMouse)
    } else if t == "m"@ {
        Some(TokenTag::MoveMouse)
    } else if t == "S"@ {
        Some(TokenTag::Scroll)
    } else if t == "s"@ {
        Some(TokenTag::Scroll)
    } else if t == "L"@ {
        Some(TokenTag::Location)
    } else if t == "l"@ {
        Some(TokenTag::Location)
    } else if t == "D"@ {
        Some(TokenTag::MainDisplay)
    } else if t == "d"@ {
        Some(TokenTag::MainDisplay)
    } else {
        None
    }
}

/// The `TokenTag` a wire name denotes; see the spec of the same name.
pub fn token_tag_of_chars(t: &[char]) -> (r: Option<TokenTag>)
    ensures
        r == spec_token_tag_of_name(t@),
{
    if chars_eq_lit(t, "Text") {
        Some(TokenTag::Text)
    } else if chars_eq_lit(t, "Key") {
        Some(TokenTag::Key)
    } else if chars_eq_lit(t, "Raw") {
        Some(TokenTag::Raw)
    } else if chars_eq_lit(t, "Button") {
        Some(TokenTag::Button)
    } else if chars_eq_lit(t, "MoveMouse") {
        Some(TokenTag::MoveMouse)
    } else if chars_eq_lit(t, "Scroll") {
        Some(TokenTag::Scroll)
    } else if chars_eq_lit(t, "Location") {
        Some(TokenTag::Location)
    } else if chars_eq_lit(t, "MainDisplay") {
        Some(TokenTag::MainDisplay)
    } else if chars_eq_lit(t, "T") {
        Some(TokenTag::Text)
    } else if chars_eq_lit(t, "t") {
        Some(TokenTag::Text)
    } else if chars_eq_lit(t, "K") {
        Some(TokenTag::Key)
    } else if chars_eq_lit(t, "k") {
        Some(TokenTag::Key)
    } else if chars_eq_lit(t, "R") {
        Some(TokenTag::Raw)
    } else if chars_eq_lit(t, "r") {
        Some(TokenTag::Raw)
    } else if chars_eq_lit(t, "B") {
        Some(TokenTag::Button)
    } else if chars_eq_lit(t, "b") {
        Some(TokenTag::Button)
    } else if chars_eq_lit(t, "M") {
        Some(TokenTag::MoveMouse)
    } else if chars_eq_lit(t, "m") {
        Some(TokenTag::MoveMouse)
    } else if chars_eq_lit(t, "S") {
        Some(TokenTag::Scroll)
    } else if chars_eq_lit(t, "s") {
        Some(TokenTag::Scroll)
    } else if chars_eq_lit(t, "L") {
        Some(TokenTag::Location)
    } else if chars_eq_lit(t, "l") {
        Some(TokenTag::Location)
    } else if chars_eq_lit(t, "D") {
        Some(TokenTag::MainDisplay)
    } else if chars_eq_lit(t, "d") {
        Some(TokenTag::MainDisplay)
    } else {
        None
    }
}

/// Decoding the canonical name of a `TokenTag` yields the value back.
#[verifier::rlimit(50)]
pub proof fn lemma_token_tag_name_rt(v: TokenTag)
    ensures
        spec_token_tag_of_name(spec_token_tag_name(v)) == Some(v),
{
    reveal_strlit("Text");
    reveal_strlit("Key");
    reveal_strlit("Raw");
    reveal_strlit("Button");
    reveal_strlit("MoveMouse");
    reveal_strlit("Scroll");
    reveal_strlit("Location");
    reveal_strlit("MainDisplay");
    assert("Text"@.len() == 4);
    assert("Key"@.len() == 3);
    assert("Key"@[0] == 'K');
    assert("Raw"@.len() == 3);
    assert("Raw"@[0] == 'R');
    assert("Button"@.len() == 6);
    assert("Button"@[0] == 'B');
    assert("MoveMouse"@.len() == 9);
    assert("Scroll"@.len() == 6);
    assert("Scroll"@[0] == 'S');
    assert("Location"@.len() == 8);
    assert("MainDisplay"@.len() == 11);
}

/// The canonical wire name of a `KeyTag`.
pub open spec fn spec_key_tag_name(v: KeyTag) -> Seq<char> {
    match v {
        KeyTag::Unicode => "Unicode"@,
        KeyTag::Other => "Other"@,
    }
}

/// The canonical wire name of a `KeyTag`.
pub fn key_tag_name_str(v: &KeyTag) -> (r: &'static str)
    ensures
        r@ == spec_key_tag_name(*v),
{
    match v {
        KeyTag::Unicode => "Unicode",
        KeyTag::Other => "Other",
    }
}

/// The `KeyTag` a wire name denotes: each canonical name, then each
/// documented alias.
pub open spec fn spec_key_tag_of_name(t: Seq<char>) -> Option<KeyTag> {
    if t == "Unicode"@ {
        Some(KeyTag::Unicode)
    } else if t == "Other"@ {
        Some(KeyTag::Other)
    } else if t == "uni"@ {
        Some(KeyTag::Unicode)
    } else if t == "Uni"@ {
        Some(KeyTag::Unicode)
    } else if t == "Char"@ {
        Some(KeyTag::Unicode)
    } else if t == "char"@ {
        Some(KeyTag::Unicode)
    } else {
        None
    }
}

/// The `KeyTag` a wire name denotes; see the spec of the same name.
pub fn key_tag_of_chars(t: &[char]) -> (r: Option<KeyTag>)
    ensures
        r == spec_key_tag_of_name(t@),
{
    if chars_eq_lit(t, "Unicode") {
        Some(KeyTag::Unicode)
    } else if chars_eq_lit(t, "Other") {
        Some(KeyTag::Other)
    } else if chars_eq_lit(t, "uni") {
        Some(KeyTag::Unicode)
    } else if chars_eq_lit(t, "Uni") {
        Some(KeyTag::Unicode)
    } else if chars_eq_lit(t, "Char") {
        Some(KeyTag::Unicode)
    } else if chars_eq_lit(t, "char") {
        Some(KeyTag::Unicode)
    } else {
        None
    }
}

/// Decoding the canonical name of a `KeyTag` yields the value back.
#[verifier::rlimit(50)]
pub proof fn lemma_key_tag_name_rt(v: KeyTag)
    ensures
        spec_key_tag_of_name(spec_key_tag_name(v)) == Some(v),
{
    reveal_strlit("Unicode");
    reveal_strlit("Other");
    assert("Unicode"@.len() == 7);
    assert("Other"@.len() == 5);
}

/// The canonical wire name of a `InputTag`.
pub open spec fn spec_input_tag_name(v: InputTag) -> Seq<char> {
    match v {
        InputTag::CaptureScreen => "CaptureScreen"@,
        InputTag::DoInput => "DoInput"@,
        InputTag::DoTypeText => "DoTypeText"@,
        InputTag::FindText => "FindText"@,
        InputTag::FindImage => "FindImage"@,
        InputTag::SetClipboardText => "SetClipboardText"@,
    }
}

/// The canonical wire name of a `InputTag`.
pub fn input_tag_name_str(v: &InputTag) -> (r: &'static str)
    ensures
        r@ == spec_input_tag_name(*v),
{
    match v {
        InputTag::CaptureScreen => "CaptureScreen",
        InputTag::DoInput => "DoInput",
        InputTag::DoTypeText => "DoTypeText",
        InputTag::FindText => "FindText",
        InputTag::FindImage => "FindImage",
        InputTag::SetClipboardText => "SetClipboardText",
    }
}

/// The `InputTag` a wire name denotes: each canonical name, then each
/// documented alias.
pub open spec fn spec_input_tag_of_name(t: Seq<char>) -> Option<InputTag> {
    if t == "CaptureScreen"@ {
        Some(InputTag::CaptureScreen)
    } else if t == "DoInput"@ {
        Some(InputTag::DoInput)
    } else if t == "DoTypeText"@ {
        Some(InputTag::DoTypeText)
    } else if t == "FindText"@ {
        Some(InputTag::FindText)
    } else if t == "FindImage"@ {
        Some(InputTag::FindImage)
    } else if t == "SetClipboardText"@ {
        Some(InputTag::SetClipboardText)
    } else {
        None
    }
}

/// The `InputTag` a wire name denotes; see the spec of the same name.
pub fn input_tag_of_chars(t: &[char]) -> (r: Option<InputTag>)
    ensures
        r == spec_input_tag_of_name(t@),
{
    if chars_eq_lit(t, "CaptureScreen") {
        Some(InputTag::CaptureScreen)
    } else if chars_eq_lit(t, "DoInput") {
        Some(InputTag::DoInput)
    } else if chars_eq_lit(t, "DoTypeText") {
        Some(InputTag::DoTypeText)
    } else if chars_eq_lit(t, "FindText") {
        Some(InputTag::FindText)
    } else if chars_eq_lit(t, "FindImage") {
        Some(InputTag::FindImage)
    } else if chars_eq_lit(t, "SetClipboardText") {
        Some(InputTag::SetClipboardText)
    } else {
        None
    }
}

/// Decoding the canonical name of a `InputTag` yields the value back.
#[verifier::rlimit(50)]
pub proof fn lemma_input_tag_name_rt(v: InputTag)
    ensures
        spec_input_tag_of_name(spec_input_tag_name(v)) == Some(v),
{
    reveal_strlit("CaptureScreen");
    reveal_strlit("DoInput");
    reveal_strlit("DoTypeText");
    reveal_strlit("FindText");
    reveal_strlit("FindImage");
    reveal_strlit("SetClipboardText");
    assert("CaptureScreen"@.len() == 13);
    assert("DoInput"@.len() == 7);
    assert("DoTypeText"@.len() == 10);
    assert("FindText"@.len() == 8);
    assert("FindImage"@.len() == 9);
    assert("SetClipboardText"@.len() == 16);
}

/// The canonical wire name of a `InputUnit`.
pub open spec fn spec_input_unit_name(v: InputUnit) -> Seq<char> {
    match v {
        InputUnit::GetScreens => "GetScreens"@,
        InputUnit::GetMainScreen => "GetMainScreen"@,
        InputUnit::GetMouseLocation => "GetMouseLocation"@,
        InputUnit::GetClipboardText => "GetClipboardText"@,
    }
}

/// The canonical wire name of a `InputUnit`.
pub fn input_unit_name_str(v: &InputUnit) -> (r: &'static str)
    ensures
        r@ == spec_input_unit_name(*v),
{
    match v {
        InputUnit::GetScreens => "GetScreens",
        InputUnit::GetMainScreen => "GetMainScreen",
        InputUnit::GetMouseLocation => "GetMouseLocation",
        InputUnit::GetClipboardText => "GetClipboardText",
    }
}

/// The `InputUnit` a wire name denotes: each canonical name, then each
/// documented alias.
pub open spec fn spec_input_unit_of_name(t: Seq<char>) -> Option<InputUnit> {
    if t == "GetScreens"@ {
        Some(InputUnit::GetScreens)
    } else if t == "GetMainScreen"@ {
        Some(InputUnit::GetMainScreen)
    } else if t == "GetMouseLocation"@ {
        Some(InputUnit::GetMouseLocation)
    } else if t == "GetClipboardText"@ {
        Some(InputUnit::GetClipboardText)
    } else {
        None
    }
}

/// The `InputUnit` a wire name denotes; see the spec of the same name.
pub fn input_unit_of_chars(t: &[char]) -> (r: Option<InputUnit>)
    ensures
        r == spec_input_unit_of_name(t@),
{
    if chars_eq_lit(t, "GetScreens") {
        Some(InputUnit::GetScreens)
    } else if chars_eq_lit(t, "GetMainScreen") {
        Some(InputUnit::GetMainScreen)
    } else if chars_eq_lit(t, "GetMouseLocation") {
        Some(InputUnit::GetMouseLocation)
    } else if chars_eq_lit(t, "GetClipboardText") {
        Some(InputUnit::GetClipboardText)
    } else {
        None
    }
}

/// Decoding the canonical name of a `InputUnit` yields the value back.
#[verifier::rlimit(50)]
pub proof fn lemma_input_unit_name_rt(v: InputUnit)
    ensures
        spec_input_unit_of_name(spec_input_unit_name(v)) == Some(v),
{
    reveal_strlit("GetScreens");
    reveal_strlit("GetMainScreen");
    reveal_strlit("GetMouseLocation");
    reveal_strlit("GetClipboardText");
    assert("GetScreens"@.len() == 10);
    assert("GetMainScreen"@.len() == 13);
    assert("GetMouseLocation"@.len() == 16);
    assert("GetMouseLocation"@[3] == 'M');
    assert("GetClipboardText"@.len() == 16);
    assert("GetClipboardText"@[3] == 'C');
}

/// The canonical wire name of a `OutputTag`.
pub open spec fn spec_output_tag_name(v: OutputTag) -> Seq<char> {
    match v {
        OutputTag::GotScreens => "GotScreens"@,
        OutputTag::GotMainScreen => "GotMainScreen"@,
        OutputTag::CapturedScreen => "CapturedScreen"@,
        OutputTag::GotMouseLocation => "GotMouseLocation"@,
        OutputTag::FoundText => "FoundText"@,
        OutputTag::FoundImage => "FoundImage"@,
        OutputTag::GotClipboardText => "GotClipboardText"@,
        OutputTag::ErrorReply => "Error"@,
    }
}

/// The canonical wire name of a `OutputTag`.
pub fn output_tag_name_str(v: &OutputTag) -> (r: &'static str)
    ensures
        r@ == spec_output_tag_name(*v),
{
    match v {
        OutputTag::GotScreens => "GotScreens",
        OutputTag::GotMainScreen => "GotMainScreen",
        OutputTag::CapturedScreen => "CapturedScreen",
        OutputTag::GotMouseLocation => "GotMouseLocation",
        OutputTag::FoundText => "FoundText",
        OutputTag::FoundImage => "FoundImage",
        OutputTag::GotClipboardText => "GotClipboardText",
        OutputTag::ErrorReply => "Error",
    }
}

/// The `OutputTag` a wire name denotes: each canonical name, then each
/// documented alias.
pub open spec fn spec_output_tag_of_name(t: Seq<char>) -> Option<OutputTag> {
    if t == "GotScreens"@ {
        Some(OutputTag::GotScreens)
    } else if t == "GotMainScreen"@ {
        Some(OutputTag::GotMainScreen)
    } else if t == "CapturedScreen"@ {
        Some(OutputTag::CapturedScreen)
    } else if t == "GotMouseLocation"@ {
        Some(OutputTag::GotMouseLocation)
    } else if t == "FoundText"@ {
        Some(OutputTag::FoundText)
    } else if t == "FoundImage"@ {
        Some(OutputTag::FoundImage)
    } else if t == "GotClipboardText"@ {
        Some(OutputTag::GotClipboardText)
    } else if t == "Error"@ {
        Some(OutputTag::ErrorReply)
    } else {
        None
    }
}

/// The `OutputTag` a wire name denotes; see the spec of the same name.
pub fn output_tag_of_chars(t: &[char]) -> (r: Option<OutputTag>)
    ensures
        r == spec_output_tag_of_name(t@),
{
    if chars_eq_lit(t, "GotScreens") {
        Some(OutputTag::GotScreens)
    } else if chars_eq_lit(t, "GotMainScreen") {
        Some(OutputTag::GotMainScreen)
    } else if chars_eq_lit(t, "CapturedScreen") {
        Some(OutputTag::CapturedScreen)
    } else if chars_eq_lit(t, "GotMouseLocation") {
        Some(OutputTag::GotMouseLocation)
    } else if chars_eq_lit(t, "FoundText") {
        Some(OutputTag::FoundText)
    } else if chars_eq_lit(t, "FoundImage") {
        Some(OutputTag::FoundImage)
    } else if chars_eq_lit(t, "GotClipboardText") {
        Some(OutputTag::GotClipboardText)
    } else if chars_eq_lit(t, "Error") {
        Some(OutputTag::ErrorReply)
    } else {
        None
    }
}

/// Decoding the canonical name of a `OutputTag` yields the value back.
#[verifier::rlimit(50)]
pub proof fn lemma_output_tag_name_rt(v: OutputTag)
    ensures
        spec_output_tag_of_name(spec_output_tag_name(v)) == Some(v),
{
    reveal_strlit("GotScreens");
    reveal_strlit("GotMainScreen");
    reveal_strlit("CapturedScreen");
    reveal_strlit("GotMouseLocation");
    reveal_strlit("FoundText");
    reveal_strlit("FoundImage");
    reveal_strlit("GotClipboardText");
    reveal_strlit("Error");
    assert("GotScreens"@.len() == 10);
    assert("GotScreens"@[0] == 'G');
    assert("GotMainScreen"@.len() == 13);
    assert("CapturedScreen"@.len() == 14);
    assert("GotMouseLocation"@.len() == 16);
    assert("GotMouseLocation"@[3] == 'M');
    assert("FoundText"@.len() == 9);
    assert("FoundImage"@.len() == 10);
    assert("FoundImage"@[0] == 'F');
    assert("GotClipboardText"@.len() == 16);
    assert("GotClipboardText"@[3] == 'C');
    assert("Error"@.len() == 5);
}

/// The canonical wire name of a `OutputUnit`.
pub open spec fn spec_output_unit_name(v: OutputUnit) -> Seq<char> {
    match v {
        OutputUnit::DidInput => "DidInput"@,
        OutputUnit::DidTypeText => "DidTypeText"@,
        OutputUnit::DidSetClipboardText => "DidSetClipboardText"@,
    }
}

/// The canonical wire name of a `OutputUnit`.
pub fn output_unit_name_str(v: &OutputUnit) -> (r: &'static str)
    ensures
        r@ == spec_output_unit_name(*v),
{
    match v {
        OutputUnit::DidInput => "DidInput",
        OutputUnit::DidTypeText => "DidTypeText",
        OutputUnit::DidSetClipboardText => "DidSetClipboardText",
    }
}

/// The `OutputUnit` a wire name denotes: each canonical name, then each
/// documented alias.
pub open spec fn spec_output_unit_of_name(t: Seq<char>) -> Option<OutputUnit> {
    if t == "DidInput"@ {
        Some(OutputUnit::DidInput)
    } else if t == "DidTypeText"@ {
        Some(OutputUnit::DidTypeText)
    } else if t == "DidSetClipboardText"@ {
        Some(OutputUnit::DidSetClipboardText)
    } else {
        None
    }
}

/// The `OutputUnit` a wire name denotes; see the spec of the same name.
pub fn output_unit_of_chars(t: &[char]) -> (r: Option<OutputUnit>)
    ensures
        r == spec_output_unit_of_name(t@),
{
    if chars_eq_lit(t, "DidInput") {
        Some(OutputUnit::DidInput)
    } else if chars_eq_lit(t, "DidTypeText") {
        Some(OutputUnit::DidTypeText)
    } else if chars_eq_lit(t, "DidSetClipboardText") {
        Some(OutputUnit::DidSetClipboardText)
    } else {
        None
    }
}

/// Decoding the canonical name of a `OutputUnit` yields the value back.
#[verifier::rlimit(50)]
pub proof fn lemma_output_unit_name_rt(v: OutputUnit)
    ensures
        spec_output_unit_of_name(spec_output_unit_name(v)) == Some(v),
{
    reveal_strlit("DidInput");
    reveal_strlit("DidTypeText");
    reveal_strlit("DidSetClipboardText");
    assert("DidInput"@.len() == 8);
    assert("DidTypeText"@.len() == 11);
    assert("DidSetClipboardText"@.len() == 19);
}

} // verus!

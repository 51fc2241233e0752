//! The closed set of commands that the window manager accepts, the bindable
//! commands of this daemon, and the wire encoding of a command.
use vstd::prelude::*;

verus! {

/// A direction for focus, move and resize commands.
#[derive(Clone, Copy, Debug, PartialEq, Eq, Structural)]
pub enum OperationDirection {
    Left,
    Right,
    Up,
    Down,
}

/// Whether a resize grows or shrinks.
#[derive(Clone, Copy, Debug, PartialEq, Eq, Structural)]
pub enum Sizing {
    Increase,
    Decrease,
}

/// The axis of an axis resize.
#[derive(Clone, Copy, Debug, PartialEq, Eq, Structural)]
pub enum Axis {
    Horizontal,
    Vertical,
    HorizontalAndVertical,
}

/// How an application rule identifies its application.
#[derive(Clone, Copy, Debug, PartialEq, Eq, Structural)]
pub enum ApplicationIdentifier {
    Exe,
    Class,
    Title,
}

/// One command of the window manager's command set.
#[derive(Clone, Debug, PartialEq, Eq)]
pub enum ProtocolMessage {
    FocusWindow(OperationDirection),
    MoveWindow(OperationDirection),
    ResizeWindowEdge(OperationDirection, Sizing),
    ResizeWindowAxis(Axis, Sizing),
    /// Monitor index, workspace index, padding.
    ContainerPadding(usize, usize, i32),
    /// Monitor index, workspace index, padding.
    WorkspacePadding(usize, usize, i32),
    FloatRule(ApplicationIdentifier, String),
    ManageRule(ApplicationIdentifier, String),
    IdentifyTrayApplication(ApplicationIdentifier, String),
    IdentifyObjectNameChangeApplication(ApplicationIdentifier, String),
    IdentifyBorderOverflowApplication(ApplicationIdentifier, String),
    IdentifyLayeredApplication(ApplicationIdentifier, String),
    Stop,
}

/// A command that a hotkey can be bound to. `Stop` ends the dispatch loop
/// instead of being sent.
#[derive(Clone, Copy, Debug, Hash, PartialEq, Eq, Structural)]
pub enum Message {
    FocusWindowLeft,
    FocusWindowRight,
    FocusWindowUp,
    FocusWindowDown,
    MoveWindowLeft,
    MoveWindowRight,
    MoveWindowUp,
    MoveWindowDown,
    ResizeWindowEdgeLeftDecrease,
    ResizeWindowEdgeLeftIncrease,
    ResizeWindowEdgeRightDecrease,
    ResizeWindowEdgeRightIncrease,
    ResizeWindowEdgeUpDecrease,
    ResizeWindowEdgeUpIncrease,
    ResizeWindowEdgeDownDecrease,
    ResizeWindowEdgeDownIncrease,
    ResizeWindowAxisHorizontalDecrease,
    ResizeWindowAxisHorizontalIncrease,
    ResizeWindowAxisVerticalDecrease,
    ResizeWindowAxisVerticalIncrease,
    ResizeWindowAxisHorizontalAndVerticalDecrease,
    ResizeWindowAxisHorizontalAndVerticalIncrease,
    Stop,
}

/// The window-manager command that a bindable command stands for; `None` for
/// `Stop`, which is handled by this daemon itself.
pub open spec fn command_of(m: Message) -> Option<ProtocolMessage> {
    match m {
        Message::FocusWindowLeft => Some(ProtocolMessage::FocusWindow(OperationDirection::Left)),
        Message::FocusWindowRight => Some(ProtocolMessage::FocusWindow(OperationDirection::Right)),
        Message::FocusWindowUp => Some(ProtocolMessage::FocusWindow(OperationDirection::Up)),
        Message::FocusWindowDown => Some(ProtocolMessage::FocusWindow(OperationDirection::Down)),
        Message::MoveWindowLeft => Some(ProtocolMessage::MoveWindow(OperationDirection::Left)),
        Message::MoveWindowRight => Some(ProtocolMessage::MoveWindow(OperationDirection::Right)),
        Message::MoveWindowUp => Some(ProtocolMessage::MoveWindow(OperationDirection::Up)),
        Message::MoveWindowDown => Some(ProtocolMessage::MoveWindow(OperationDirection::Down)),
        Message::ResizeWindowEdgeLeftDecrease => Some(ProtocolMessage::ResizeWindowEdge(OperationDirection::Left, Sizing::Decrease)),
        Message::ResizeWindowEdgeLeftIncrease => Some(ProtocolMessage::ResizeWindowEdge(OperationDirection::Left, Sizing::Increase)),
        Message::ResizeWindowEdgeRightDecrease => Some(ProtocolMessage::ResizeWindowEdge(OperationDirection::Right, Sizing::Decrease)),
        Message::ResizeWindowEdgeRightIncrease => Some(ProtocolMessage::ResizeWindowEdge(OperationDirection::Right, Sizing::Increase)),
        Message::ResizeWindowEdgeUpDecrease => Some(ProtocolMessage::ResizeWindowEdge(OperationDirection::Up, Sizing::Decrease)),
        Message::ResizeWindowEdgeUpIncrease => Some(ProtocolMessage::ResizeWindowEdge(OperationDirection::Up, Sizing::Increase)),
        Message::ResizeWindowEdgeDownDecrease => Some(ProtocolMessage::ResizeWindowEdge(OperationDirection::Down, Sizing::Decrease)),
        Message::ResizeWindowEdgeDownIncrease => Some(ProtocolMessage::ResizeWindowEdge(OperationDirection::Down, Sizing::Increase)),
        Message::ResizeWindowAxisHorizontalDecrease => Some(ProtocolMessage::ResizeWindowAxis(Axis::Horizontal, Sizing::Decrease)),
        Message::ResizeWindowAxisHorizontalIncrease => Some(ProtocolMessage::ResizeWindowAxis(Axis::Horizontal, Sizing::Increase)),
        Message::ResizeWindowAxisVerticalDecrease => Some(ProtocolMessage::ResizeWindowAxis(Axis::Vertical, Sizing::Decrease)),
        Message::ResizeWindowAxisVerticalIncrease => Some(ProtocolMessage::ResizeWindowAxis(Axis::Vertical, Sizing::Increase)),
        Message::ResizeWindowAxisHorizontalAndVerticalDecrease => Some(ProtocolMessage::ResizeWindowAxis(Axis::HorizontalAndVertical, Sizing::Decrease)),
        Message::ResizeWindowAxisHorizontalAndVerticalIncrease => Some(ProtocolMessage::ResizeWindowAxis(Axis::HorizontalAndVertical, Sizing::Increase)),
        Message::Stop => None,
    }
}

impl Message {
    /// The window-manager command this bindable command sends, if any.
    pub fn command(&self) -> (r: Option<ProtocolMessage>)
        ensures
            r == command_of(*self),
    {
        match self {
            Message::FocusWindowLeft => Some(ProtocolMessage::FocusWindow(OperationDirection::Left)),
            Message::FocusWindowRight => Some(ProtocolMessage::FocusWindow(OperationDirection::Right)),
            Message::FocusWindowUp => Some(ProtocolMessage::FocusWindow(OperationDirection::Up)),
            Message::FocusWindowDown => Some(ProtocolMessage::FocusWindow(OperationDirection::Down)),
            Message::MoveWindowLeft => Some(ProtocolMessage::MoveWindow(OperationDirection::Left)),
            Message::MoveWindowRight => Some(ProtocolMessage::MoveWindow(OperationDirection::Right)),
            Message::MoveWindowUp => Some(ProtocolMessage::MoveWindow(OperationDirection::Up)),
            Message::MoveWindowDown => Some(ProtocolMessage::MoveWindow(OperationDirection::Down)),
            Message::ResizeWindowEdgeLeftDecrease => Some(ProtocolMessage::ResizeWindowEdge(OperationDirection::Left, Sizing::Decrease)),
            Message::ResizeWindowEdgeLeftIncrease => Some(ProtocolMessage::ResizeWindowEdge(OperationDirection::Left, Sizing::Increase)),
            Message::ResizeWindowEdgeRightDecrease => Some(ProtocolMessage::ResizeWindowEdge(OperationDirection::Right, Sizing::Decrease)),
            Message::ResizeWindowEdgeRightIncrease => Some(ProtocolMessage::ResizeWindowEdge(OperationDirection::Right, Sizing::Increase)),
            Message::ResizeWindowEdgeUpDecrease => Some(ProtocolMessage::ResizeWindowEdge(OperationDirection::Up, Sizing::Decrease)),
            Message::ResizeWindowEdgeUpIncrease => Some(ProtocolMessage::ResizeWindowEdge(OperationDirection::Up, Sizing::Increase)),
            Message::ResizeWindowEdgeDownDecrease => Some(ProtocolMessage::ResizeWindowEdge(OperationDirection::Down, Sizing::Decrease)),
            Message::ResizeWindowEdgeDownIncrease => Some(ProtocolMessage::ResizeWindowEdge(OperationDirection::Down, Sizing::Increase)),
            Message::ResizeWindowAxisHorizontalDecrease => Some(ProtocolMessage::ResizeWindowAxis(Axis::Horizontal, Sizing::Decrease)),
            Message::ResizeWindowAxisHorizontalIncrease => Some(ProtocolMessage::ResizeWindowAxis(Axis::Horizontal, Sizing::Increase)),
            Message::ResizeWindowAxisVerticalDecrease => Some(ProtocolMessage::ResizeWindowAxis(Axis::Vertical, Sizing::Decrease)),
            Message::ResizeWindowAxisVerticalIncrease => Some(ProtocolMessage::ResizeWindowAxis(Axis::Vertical, Sizing::Increase)),
            Message::ResizeWindowAxisHorizontalAndVerticalDecrease => Some(ProtocolMessage::ResizeWindowAxis(Axis::HorizontalAndVertical, Sizing::Decrease)),
            Message::ResizeWindowAxisHorizontalAndVerticalIncrease => Some(ProtocolMessage::ResizeWindowAxis(Axis::HorizontalAndVertical, Sizing::Increase)),
            Message::Stop => None,
        }
    }
}

impl ProtocolMessage {
    /// A copy of this message, field for field.
    pub fn duplicate(&self) -> (r: ProtocolMessage)
        ensures
            r == *self,
    {
        match self {
            ProtocolMessage::FocusWindow(d) => ProtocolMessage::FocusWindow(*d),
            ProtocolMessage::MoveWindow(d) => ProtocolMessage::MoveWindow(*d),
            ProtocolMessage::ResizeWindowEdge(d, s) => ProtocolMessage::ResizeWindowEdge(*d, *s),
            ProtocolMessage::ResizeWindowAxis(a, s) => ProtocolMessage::ResizeWindowAxis(*a, *s),
            ProtocolMessage::ContainerPadding(m, w, p) => ProtocolMessage::ContainerPadding(*m, *w, *p),
            ProtocolMessage::WorkspacePadding(m, w, p) => ProtocolMessage::WorkspacePadding(*m, *w, *p),
            ProtocolMessage::FloatRule(k, n) => ProtocolMessage::FloatRule(*k, n.clone()),
            ProtocolMessage::ManageRule(k, n) => ProtocolMessage::ManageRule(*k, n.clone()),
            ProtocolMessage::IdentifyTrayApplication(k, n) => ProtocolMessage::IdentifyTrayApplication(*k, n.clone()),
            ProtocolMessage::IdentifyObjectNameChangeApplication(k, n) => ProtocolMessage::IdentifyObjectNameChangeApplication(*k, n.clone()),
            ProtocolMessage::IdentifyBorderOverflowApplication(k, n) => ProtocolMessage::IdentifyBorderOverflowApplication(*k, n.clone()),
            ProtocolMessage::IdentifyLayeredApplication(k, n) => ProtocolMessage::IdentifyLayeredApplication(*k, n.clone()),
            ProtocolMessage::Stop => ProtocolMessage::Stop,
        }
    }
}

/// Relies on `String::push`: appends one character.
#[verifier::external_body]
pub(crate) fn push_char(s: &mut String, c: char)
    ensures
        final(s)@ == old(s)@.push(c),
{
    s.push(c)
}

/// The decimal digit for `d < 10`.
pub open spec fn digit(d: nat) -> char {
    if d == 0 { '0' } else if d == 1 { '1' } else if d == 2 { '2' } else if d == 3 { '3' }
    else if d == 4 { '4' } else if d == 5 { '5' } else if d == 6 { '6' } else if d == 7 { '7' }
    else if d == 8 { '8' } else { '9' }
}

/// The lower-case hexadecimal digit for `d < 16`.
pub open spec fn hex_digit(d: nat) -> char {
    if d < 10 { digit(d) } else if d == 10 { 'a' } else if d == 11 { 'b' } else if d == 12 { 'c' }
    else if d == 13 { 'd' } else if d == 14 { 'e' } else { 'f' }
}

/// The decimal digits of `n`, most significant first, without leading zeros.
pub open spec fn decimal(n: nat) -> Seq<char>
    decreases n,
{
    if n < 10 {
        seq![digit(n)]
    } else {
        decimal(n / 10).push(digit(n % 10))
    }
}

/// A signed integer in decimal, with a leading `-` when negative.
pub open spec fn signed_decimal(i: int) -> Seq<char> {
    if i < 0 {
        seq!['-'] + decimal((-i) as nat)
    } else {
        decimal(i as nat)
    }
}

/// One character as it stands inside a JSON string literal.
pub open spec fn escape_char(c: char) -> Seq<char> {
    if c == '"' {
        seq!['\\', '"']
    } else if c == '\\' {
        seq!['\\', '\\']
    } else if (c as u32) < 0x20 {
        seq!['\\', 'u', '0', '0', hex_digit((c as u32 / 16) as nat), hex_digit((c as u32 % 16) as nat)]
    } else {
        seq![c]
    }
}

/// The characters of `s` as they stand inside a JSON string literal.
pub open spec fn escaped(s: Seq<char>) -> Seq<char>
    decreases s.len(),
{
    if s.len() == 0 {
        Seq::empty()
    } else {
        escaped(s.drop_last()) + escape_char(s.last())
    }
}

/// `s` as a JSON string literal.
pub open spec fn quoted(s: Seq<char>) -> Seq<char> {
    seq!['"'] + escaped(s) + seq!['"']
}

fn digit_char(d: u64) -> (c: char)
    requires
        d < 16,
    ensures
        c == hex_digit(d as nat),
{
    if d == 0 { '0' } else if d == 1 { '1' } else if d == 2 { '2' } else if d == 3 { '3' }
    else if d == 4 { '4' } else if d == 5 { '5' } else if d == 6 { '6' } else if d == 7 { '7' }
    else if d == 8 { '8' } else if d == 9 { '9' } else if d == 10 { 'a' } else if d == 11 { 'b' }
    else if d == 12 { 'c' } else if d == 13 { 'd' } else if d == 14 { 'e' } else { 'f' }
}

/// Appends the decimal digits of `n`.
fn push_decimal(s: &mut String, n: u64)
    ensures
        final(s)@ == old(s)@ + decimal(n as nat),
    decreases n,
{
    if n >= 10 {
        push_decimal(s, n / 10);
    }
    push_char(s, digit_char(n % 10));
    assert(final(s)@ =~= old(s)@ + decimal(n as nat));
}

/// Appends `i` in decimal, with a leading `-` when negative.
fn push_signed(s: &mut String, i: i32)
    ensures
        final(s)@ == old(s)@ + signed_decimal(i as int),
{
    if i < 0 {
        push_char(s, '-');
        let magnitude: i64 = -(i as i64);
        push_decimal(s, magnitude as u64);
        assert(final(s)@ =~= old(s)@ + signed_decimal(i as int));
    } else {
        push_decimal(s, i as u64);
    }
}

proof fn lemma_escaped_step(s: Seq<char>, i: int)
    requires
        0 <= i < s.len(),
    ensures
        escaped(s.subrange(0, i + 1)) == escaped(s.subrange(0, i)) + escape_char(s[i]),
{
    assert(s.subrange(0, i + 1).drop_last() =~= s.subrange(0, i));
}

/// Appends `text` as a JSON string literal.
fn push_quoted(s: &mut String, text: &String)
    ensures
        final(s)@ == old(s)@ + quoted(text@),
{
    push_char(s, '"');
    let n = text.as_str().unicode_len();
    let mut i: usize = 0;
    while i < n
        invariant
            n == text@.len(),
            i <= n,
            s@ == old(s)@ + seq!['"'] + escaped(text@.subrange(0, i as int)),
        decreases n - i,
    {
        let c = text.as_str().get_char(i);
        proof {
            lemma_escaped_step(text@, i as int);
        }
        if c == '"' {
            push_char(s, '\\');
            push_char(s, '"');
        } else if c == '\\' {
            push_char(s, '\\');
            push_char(s, '\\');
        } else if (c as u32) < 0x20 {
            let code = c as u32 as u64;
            push_char(s, '\\');
            push_char(s, 'u');
            push_char(s, '0');
            push_char(s, '0');
            push_char(s, digit_char(code / 16));
            push_char(s, digit_char(code % 16));
        } else {
            push_char(s, c);
        }
        assert(s@ =~= old(s)@ + seq!['"'] + escaped(text@.subrange(0, i + 1)));
        i = i + 1;
    }
    assert(text@.subrange(0, n as int) =~= text@);
    push_char(s, '"');
    assert(s@ =~= old(s)@ + quoted(text@));
}

pub open spec fn direction_name(v: OperationDirection) -> Seq<char> {
    match v {
        OperationDirection::Left => "Left"@,
        OperationDirection::Right => "Right"@,
        OperationDirection::Up => "Up"@,
        OperationDirection::Down => "Down"@,
    }
}

impl OperationDirection {
    /// The variant's name on the wire.
    pub fn name(&self) -> (r: &'static str)
        ensures
            r@ == direction_name(*self),
    {
        match self {
            OperationDirection::Left => "Left",
            OperationDirection::Right => "Right",
            OperationDirection::Up => "Up",
            OperationDirection::Down => "Down",
        }
    }
}

pub open spec fn sizing_name(v: Sizing) -> Seq<char> {
    match v {
        Sizing::Increase => "Increase"@,
        Sizing::Decrease => "Decrease"@,
    }
}

impl Sizing {
    /// The variant's name on the wire.
    pub fn name(&self) -> (r: &'static str)
        ensures
            r@ == sizing_name(*self),
    {
        match self {
            Sizing::Increase => "Increase",
            Sizing::Decrease => "Decrease",
        }
    }
}

pub open spec fn axis_name(v: Axis) -> Seq<char> {
    match v {
        Axis::Horizontal => "Horizontal"@,
        Axis::Vertical => "Vertical"@,
        Axis::HorizontalAndVertical => "HorizontalAndVertical"@,
    }
}

impl Axis {
    /// The variant's name on the wire.
    pub fn name(&self) -> (r: &'static str)
        ensures
            r@ == axis_name(*self),
    {
        match self {
            Axis::Horizontal => "Horizontal",
            Axis::Vertical => "Vertical",
            Axis::HorizontalAndVertical => "HorizontalAndVertical",
        }
    }
}

pub open spec fn identifier_name(v: ApplicationIdentifier) -> Seq<char> {
    match v {
        ApplicationIdentifier::Exe => "Exe"@,
        ApplicationIdentifier::Class => "Class"@,
        ApplicationIdentifier::Title => "Title"@,
    }
}

impl ApplicationIdentifier {
    /// The variant's name on the wire.
    pub fn name(&self) -> (r: &'static str)
        ensures
            r@ == identifier_name(*self),
    {
        match self {
            ApplicationIdentifier::Exe => "Exe",
            ApplicationIdentifier::Class => "Class",
            ApplicationIdentifier::Title => "Title",
        }
    }
}

/// A message of the given tag carrying the given JSON content.
pub open spec fn tagged(tag: Seq<char>, content: Seq<char>) -> Seq<char> {
    "{\"type\":\""@ + tag + "\",\"content\":"@ + content + "}"@
}

/// A JSON array of two values.
pub open spec fn pair(a: Seq<char>, b: Seq<char>) -> Seq<char> {
    seq!['['] + a + seq![','] + b + seq![']']
}

/// A JSON array of three values.
pub open spec fn triple(a: Seq<char>, b: Seq<char>, c: Seq<char>) -> Seq<char> {
    seq!['['] + a + seq![','] + b + seq![','] + c + seq![']']
}

/// The padding fields of a padding message.
pub open spec fn padding_content(monitor: usize, workspace: usize, padding: i32) -> Seq<char> {
    triple(decimal(monitor as nat), decimal(workspace as nat), signed_decimal(padding as int))
}

/// The content of an application rule message.
pub open spec fn rule_content(kind: ApplicationIdentifier, name: Seq<char>) -> Seq<char> {
    pair(quoted(identifier_name(kind)), quoted(name))
}

/// The variant's name, the `type` field on the wire.
pub open spec fn tag_name(m: ProtocolMessage) -> Seq<char> {
    match m {
        ProtocolMessage::FocusWindow(_) => "FocusWindow"@,
        ProtocolMessage::MoveWindow(_) => "MoveWindow"@,
        ProtocolMessage::ResizeWindowEdge(..) => "ResizeWindowEdge"@,
        ProtocolMessage::ResizeWindowAxis(..) => "ResizeWindowAxis"@,
        ProtocolMessage::ContainerPadding(..) => "ContainerPadding"@,
        ProtocolMessage::WorkspacePadding(..) => "WorkspacePadding"@,
        ProtocolMessage::FloatRule(..) => "FloatRule"@,
        ProtocolMessage::ManageRule(..) => "ManageRule"@,
        ProtocolMessage::IdentifyTrayApplication(..) => "IdentifyTrayApplication"@,
        ProtocolMessage::IdentifyObjectNameChangeApplication(..) => "IdentifyObjectNameChangeApplication"@,
        ProtocolMessage::IdentifyBorderOverflowApplication(..) => "IdentifyBorderOverflowApplication"@,
        ProtocolMessage::IdentifyLayeredApplication(..) => "IdentifyLayeredApplication"@,
        ProtocolMessage::Stop => "Stop"@,
    }
}

/// The `content` field of a message that has one.
pub open spec fn content(m: ProtocolMessage) -> Seq<char> {
    match m {
        ProtocolMessage::FocusWindow(d) => quoted(direction_name(d)),
        ProtocolMessage::MoveWindow(d) => quoted(direction_name(d)),
        ProtocolMessage::ResizeWindowEdge(d, s) => pair(quoted(direction_name(d)), quoted(sizing_name(s))),
        ProtocolMessage::ResizeWindowAxis(a, s) => pair(quoted(axis_name(a)), quoted(sizing_name(s))),
        ProtocolMessage::ContainerPadding(m, w, p) => padding_content(m, w, p),
        ProtocolMessage::WorkspacePadding(m, w, p) => padding_content(m, w, p),
        ProtocolMessage::FloatRule(k, n) => rule_content(k, n@),
        ProtocolMessage::ManageRule(k, n) => rule_content(k, n@),
        ProtocolMessage::IdentifyTrayApplication(k, n) => rule_content(k, n@),
        ProtocolMessage::IdentifyObjectNameChangeApplication(k, n) => rule_content(k, n@),
        ProtocolMessage::IdentifyBorderOverflowApplication(k, n) => rule_content(k, n@),
        ProtocolMessage::IdentifyLayeredApplication(k, n) => rule_content(k, n@),
        ProtocolMessage::Stop => Seq::empty(),
    }
}

/// The wire encoding of a message: a JSON object whose `type` field names the
/// variant and whose `content` field, absent for `Stop`, holds its fields.
pub open spec fn wire(m: ProtocolMessage) -> Seq<char> {
    if m is Stop {
        "{\"type\":\"Stop\"}"@
    } else {
        tagged(tag_name(m), content(m))
    }
}

/// Appends a JSON array of two strings.
fn push_pair(s: &mut String, a: &str, b: &String)
    ensures
        final(s)@ == old(s)@ + pair(quoted(a@), quoted(b@)),
{
    push_char(s, '[');
    push_quoted(s, &String::from_str(a));
    push_char(s, ',');
    push_quoted(s, b);
    push_char(s, ']');
    assert(final(s)@ =~= old(s)@ + pair(quoted(a@), quoted(b@)));
}

/// Appends the content of a padding message.
fn push_padding(s: &mut String, monitor: usize, workspace: usize, padding: i32)
    ensures
        final(s)@ == old(s)@ + padding_content(monitor, workspace, padding),
{
    push_char(s, '[');
    push_decimal(s, monitor as u64);
    push_char(s, ',');
    push_decimal(s, workspace as u64);
    push_char(s, ',');
    push_signed(s, padding);
    push_char(s, ']');
    assert(final(s)@ =~= old(s)@ + padding_content(monitor, workspace, padding));
}

impl ProtocolMessage {
    /// The variant's name, the `type` field on the wire.
    pub fn tag(&self) -> (r: &'static str)
        ensures
            r@ == tag_name(*self),
    {
        match self {
            ProtocolMessage::FocusWindow(_) => "FocusWindow",
            ProtocolMessage::MoveWindow(_) => "MoveWindow",
            ProtocolMessage::ResizeWindowEdge(..) => "ResizeWindowEdge",
            ProtocolMessage::ResizeWindowAxis(..) => "ResizeWindowAxis",
            ProtocolMessage::ContainerPadding(..) => "ContainerPadding",
            ProtocolMessage::WorkspacePadding(..) => "WorkspacePadding",
            ProtocolMessage::FloatRule(..) => "FloatRule",
            ProtocolMessage::ManageRule(..) => "ManageRule",
            ProtocolMessage::IdentifyTrayApplication(..) => "IdentifyTrayApplication",
            ProtocolMessage::IdentifyObjectNameChangeApplication(..) => "IdentifyObjectNameChangeApplication",
            ProtocolMessage::IdentifyBorderOverflowApplication(..) => "IdentifyBorderOverflowApplication",
            ProtocolMessage::IdentifyLayeredApplication(..) => "IdentifyLayeredApplication",
            ProtocolMessage::Stop => "Stop",
        }
    }

    /// The message in the window manager's wire encoding.
    pub fn encode(&self) -> (r: String)
        ensures
            r@ == wire(*self),
    {
        if let ProtocolMessage::Stop = self {
            return String::from_str("{\"type\":\"Stop\"}");
        }
        let mut s = String::from_str("{\"type\":\"");
        s.append(self.tag());
        s.append("\",\"content\":");
        let ghost start = s@;
        match self {
            ProtocolMessage::FocusWindow(d) | ProtocolMessage::MoveWindow(d) => {
                push_quoted(&mut s, &String::from_str(d.name()));
            },
            ProtocolMessage::ResizeWindowEdge(d, z) => {
                push_pair(&mut s, d.name(), &String::from_str(z.name()));
            },
            ProtocolMessage::ResizeWindowAxis(a, z) => {
                push_pair(&mut s, a.name(), &String::from_str(z.name()));
            },
            ProtocolMessage::ContainerPadding(m, w, p) | ProtocolMessage::WorkspacePadding(m, w, p) => {
                push_padding(&mut s, *m, *w, *p);
            },
            ProtocolMessage::FloatRule(k, n)
            | ProtocolMessage::ManageRule(k, n)
            | ProtocolMessage::IdentifyTrayApplication(k, n)
            | ProtocolMessage::IdentifyObjectNameChangeApplication(k, n)
            | ProtocolMessage::IdentifyBorderOverflowApplication(k, n)
            | ProtocolMessage::IdentifyLayeredApplication(k, n) => {
                push_pair(&mut s, k.name(), n);
            },
            ProtocolMessage::Stop => {},
        }
        assert(s@ =~= start + content(*self));
        s.append("}");
        assert(s@ =~= wire(*self));
        s
    }
}

/// The bindable command's name in configuration.
#[verifier::opaque]
pub open spec fn message_name(m: Message) -> Seq<char> {
    match m {
        Message::FocusWindowLeft => "focus_left"@,
        Message::FocusWindowRight => "focus_right"@,
        Message::FocusWindowUp => "focus_up"@,
        Message::FocusWindowDown => "focus_down"@,
        Message::MoveWindowLeft => "move_left"@,
        Message::MoveWindowRight => "move_right"@,
        Message::MoveWindowUp => "move_up"@,
        Message::MoveWindowDown => "move_down"@,
        Message::ResizeWindowEdgeLeftDecrease => "resize_edge_left_dec"@,
        Message::ResizeWindowEdgeLeftIncrease => "resize_edge_left_inc"@,
        Message::ResizeWindowEdgeRightDecrease => "resize_edge_right_dec"@,
        Message::ResizeWindowEdgeRightIncrease => "resize_edge_right_inc"@,
        Message::ResizeWindowEdgeUpDecrease => "resize_edge_up_dec"@,
        Message::ResizeWindowEdgeUpIncrease => "resize_edge_up_inc"@,
        Message::ResizeWindowEdgeDownDecrease => "resize_edge_down_dec"@,
        Message::ResizeWindowEdgeDownIncrease => "resize_edge_down_inc"@,
        Message::ResizeWindowAxisHorizontalDecrease => "resize_axis_h_dec"@,
        Message::ResizeWindowAxisHorizontalIncrease => "resize_axis_h_inc"@,
        Message::ResizeWindowAxisVerticalDecrease => "resize_axis_v_dec"@,
        Message::ResizeWindowAxisVerticalIncrease => "resize_axis_v_inc"@,
        Message::ResizeWindowAxisHorizontalAndVerticalDecrease => "resize_axis_hv_dec"@,
        Message::ResizeWindowAxisHorizontalAndVerticalIncrease => "resize_axis_hv_inc"@,
        Message::Stop => "stop"@,
    }
}

/// The command at position `i` of the declaration order.
#[verifier::opaque]
pub open spec fn message_at(i: int) -> Message {
    if i == 0 {
        Message::FocusWindowLeft
    } else if i == 1 {
        Message::FocusWindowRight
    } else if i == 2 {
        Message::FocusWindowUp
    } else if i == 3 {
        Message::FocusWindowDown
    } else if i == 4 {
        Message::MoveWindowLeft
    } else if i == 5 {
        Message::MoveWindowRight
    } else if i == 6 {
        Message::MoveWindowUp
    } else if i == 7 {
        Message::MoveWindowDown
    } else if i == 8 {
        Message::ResizeWindowEdgeLeftDecrease
    } else if i == 9 {
        Message::ResizeWindowEdgeLeftIncrease
    } else if i == 10 {
        Message::ResizeWindowEdgeRightDecrease
    } else if i == 11 {
        Message::ResizeWindowEdgeRightIncrease
    } else if i == 12 {
        Message::ResizeWindowEdgeUpDecrease
    } else if i == 13 {
        Message::ResizeWindowEdgeUpIncrease
    } else if i == 14 {
        Message::ResizeWindowEdgeDownDecrease
    } else if i == 15 {
        Message::ResizeWindowEdgeDownIncrease
    } else if i == 16 {
        Message::ResizeWindowAxisHorizontalDecrease
    } else if i == 17 {
        Message::ResizeWindowAxisHorizontalIncrease
    } else if i == 18 {
        Message::ResizeWindowAxisVerticalDecrease
    } else if i == 19 {
        Message::ResizeWindowAxisVerticalIncrease
    } else if i == 20 {
        Message::ResizeWindowAxisHorizontalAndVerticalDecrease
    } else if i == 21 {
        Message::ResizeWindowAxisHorizontalAndVerticalIncrease
    } else {
        Message::Stop
    }
}

/// The position of a command in the declaration order.
pub open spec fn message_index(m: Message) -> int {
    match m {
        Message::FocusWindowLeft => 0,
        Message::FocusWindowRight => 1,
        Message::FocusWindowUp => 2,
        Message::FocusWindowDown => 3,
        Message::MoveWindowLeft => 4,
        Message::MoveWindowRight => 5,
        Message::MoveWindowUp => 6,
        Message::MoveWindowDown => 7,
        Message::ResizeWindowEdgeLeftDecrease => 8,
        Message::ResizeWindowEdgeLeftIncrease => 9,
        Message::ResizeWindowEdgeRightDecrease => 10,
        Message::ResizeWindowEdgeRightIncrease => 11,
        Message::ResizeWindowEdgeUpDecrease => 12,
        Message::ResizeWindowEdgeUpIncrease => 13,
        Message::ResizeWindowEdgeDownDecrease => 14,
        Message::ResizeWindowEdgeDownIncrease => 15,
        Message::ResizeWindowAxisHorizontalDecrease => 16,
        Message::ResizeWindowAxisHorizontalIncrease => 17,
        Message::ResizeWindowAxisVerticalDecrease => 18,
        Message::ResizeWindowAxisVerticalIncrease => 19,
        Message::ResizeWindowAxisHorizontalAndVerticalDecrease => 20,
        Message::ResizeWindowAxisHorizontalAndVerticalIncrease => 21,
        Message::Stop => 22,
    }
}

proof fn lemma_index_of_at(i: int)
    requires
        0 <= i < 23,
    ensures
        message_index(message_at(i)) == i,
{
    reveal(message_at);
}

proof fn lemma_message_index(m: Message)
    ensures
        0 <= message_index(m) < 23,
        message_at(message_index(m)) == m,
{
    reveal(message_at);
}

impl Message {
    /// The command's name in configuration.
    pub fn name(&self) -> (r: &'static str)
        ensures
            r@ == message_name(*self),
    {
        reveal(message_name);
        match self {
            Message::FocusWindowLeft => "focus_left",
            Message::FocusWindowRight => "focus_right",
            Message::FocusWindowUp => "focus_up",
            Message::FocusWindowDown => "focus_down",
            Message::MoveWindowLeft => "move_left",
            Message::MoveWindowRight => "move_right",
            Message::MoveWindowUp => "move_up",
            Message::MoveWindowDown => "move_down",
            Message::ResizeWindowEdgeLeftDecrease => "resize_edge_left_dec",
            Message::ResizeWindowEdgeLeftIncrease => "resize_edge_left_inc",
            Message::ResizeWindowEdgeRightDecrease => "resize_edge_right_dec",
            Message::ResizeWindowEdgeRightIncrease => "resize_edge_right_inc",
            Message::ResizeWindowEdgeUpDecrease => "resize_edge_up_dec",
            Message::ResizeWindowEdgeUpIncrease => "resize_edge_up_inc",
            Message::ResizeWindowEdgeDownDecrease => "resize_edge_down_dec",
            Message::ResizeWindowEdgeDownIncrease => "resize_edge_down_inc",
            Message::ResizeWindowAxisHorizontalDecrease => "resize_axis_h_dec",
            Message::ResizeWindowAxisHorizontalIncrease => "resize_axis_h_inc",
            Message::ResizeWindowAxisVerticalDecrease => "resize_axis_v_dec",
            Message::ResizeWindowAxisVerticalIncrease => "resize_axis_v_inc",
            Message::ResizeWindowAxisHorizontalAndVerticalDecrease => "resize_axis_hv_dec",
            Message::ResizeWindowAxisHorizontalAndVerticalIncrease => "resize_axis_hv_inc",
            Message::Stop => "stop",
        }
    }

    /// The command at position `i` of the declaration order.
    fn at(i: usize) -> (r: Message)
        requires
            i < 23,
        ensures
            r == message_at(i as int),
    {
        reveal(message_at);
        if i == 0 {
            Message::FocusWindowLeft
        } else if i == 1 {
            Message::FocusWindowRight
        } else if i == 2 {
            Message::FocusWindowUp
        } else if i == 3 {
            Message::FocusWindowDown
        } else if i == 4 {
            Message::MoveWindowLeft
        } else if i == 5 {
            Message::MoveWindowRight
        } else if i == 6 {
            Message::MoveWindowUp
        } else if i == 7 {
            Message::MoveWindowDown
        } else if i == 8 {
            Message::ResizeWindowEdgeLeftDecrease
        } else if i == 9 {
            Message::ResizeWindowEdgeLeftIncrease
        } else if i == 10 {
            Message::ResizeWindowEdgeRightDecrease
        } else if i == 11 {
            Message::ResizeWindowEdgeRightIncrease
        } else if i == 12 {
            Message::ResizeWindowEdgeUpDecrease
        } else if i == 13 {
            Message::ResizeWindowEdgeUpIncrease
        } else if i == 14 {
            Message::ResizeWindowEdgeDownDecrease
        } else if i == 15 {
            Message::ResizeWindowEdgeDownIncrease
        } else if i == 16 {
            Message::ResizeWindowAxisHorizontalDecrease
        } else if i == 17 {
            Message::ResizeWindowAxisHorizontalIncrease
        } else if i == 18 {
            Message::ResizeWindowAxisVerticalDecrease
        } else if i == 19 {
            Message::ResizeWindowAxisVerticalIncrease
        } else if i == 20 {
            Message::ResizeWindowAxisHorizontalAndVerticalDecrease
        } else if i == 21 {
            Message::ResizeWindowAxisHorizontalAndVerticalIncrease
        } else {
            Message::Stop
        }
    }

    /// The command whose configuration name is `name`; `None` when no command
    /// has it.
    pub fn from_name(name: &str) -> (r: Option<Message>)
        ensures
            r matches Some(m) ==> message_name(m) == name@,
            r matches Some(m) ==> forall|j: Message| message_index(j) < message_index(m) ==> message_name(j) != name@,
            r is None <==> forall|m: Message| message_name(m) != name@,
    {
        let wanted = String::from_str(name);
        let mut i: usize = 0;
        while i < 23
            invariant
                i <= 23,
                wanted@ == name@,
                forall|j: int| 0 <= j < i ==> message_name(#[trigger] message_at(j)) != name@,
            decreases 23 - i,
        {
            let m = Message::at(i);
            if String::from_str(m.name()) == wanted {
                proof {
                    lemma_index_of_at(i as int);
                    assert forall|j: Message| message_index(j) < message_index(m) implies message_name(j) != name@ by {
                        lemma_message_index(j);
                        assert(message_name(message_at(message_index(j))) != name@);
                    }
                }
                return Some(m);
            }
            i = i + 1;
        }
        proof {
            assert forall|m: Message| message_name(m) != name@ by {
                lemma_message_index(m);
                assert(message_name(message_at(message_index(m))) != name@);
            }
        }
        None
    }
}

/// A message as the window manager reads it: application names as text.
pub enum MessageView {
    FocusWindow(OperationDirection),
    MoveWindow(OperationDirection),
    ResizeWindowEdge(OperationDirection, Sizing),
    ResizeWindowAxis(Axis, Sizing),
    ContainerPadding(usize, usize, i32),
    WorkspacePadding(usize, usize, i32),
    FloatRule(ApplicationIdentifier, Seq<char>),
    ManageRule(ApplicationIdentifier, Seq<char>),
    IdentifyTrayApplication(ApplicationIdentifier, Seq<char>),
    IdentifyObjectNameChangeApplication(ApplicationIdentifier, Seq<char>),
    IdentifyBorderOverflowApplication(ApplicationIdentifier, Seq<char>),
    IdentifyLayeredApplication(ApplicationIdentifier, Seq<char>),
    Stop,
}

impl View for ProtocolMessage {
    type V = MessageView;

    open spec fn view(&self) -> MessageView {
        match self {
            ProtocolMessage::FocusWindow(d) => MessageView::FocusWindow(*d),
            ProtocolMessage::MoveWindow(d) => MessageView::MoveWindow(*d),
            ProtocolMessage::ResizeWindowEdge(d, z) => MessageView::ResizeWindowEdge(*d, *z),
            ProtocolMessage::ResizeWindowAxis(a, z) => MessageView::ResizeWindowAxis(*a, *z),
            ProtocolMessage::ContainerPadding(m, w, p) => MessageView::ContainerPadding(*m, *w, *p),
            ProtocolMessage::WorkspacePadding(m, w, p) => MessageView::WorkspacePadding(*m, *w, *p),
            ProtocolMessage::FloatRule(k, n) => MessageView::FloatRule(*k, n@),
            ProtocolMessage::ManageRule(k, n) => MessageView::ManageRule(*k, n@),
            ProtocolMessage::IdentifyTrayApplication(k, n) => MessageView::IdentifyTrayApplication(*k, n@),
            ProtocolMessage::IdentifyObjectNameChangeApplication(k, n) => MessageView::IdentifyObjectNameChangeApplication(*k, n@),
            ProtocolMessage::IdentifyBorderOverflowApplication(k, n) => MessageView::IdentifyBorderOverflowApplication(*k, n@),
            ProtocolMessage::IdentifyLayeredApplication(k, n) => MessageView::IdentifyLayeredApplication(*k, n@),
            ProtocolMessage::Stop => MessageView::Stop,
        }
    }
}

} // verus!

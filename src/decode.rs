//! Reading a message back from its wire encoding, as the window manager's
//! end of the socket does.
use vstd::prelude::*;
use crate::message::{
    axis_name, content, decimal, digit, direction_name, escape_char, escaped, hex_digit,
    identifier_name, pair, push_char, quoted, signed_decimal, sizing_name, tag_name, triple, wire,
    ApplicationIdentifier, Axis, MessageView, OperationDirection, ProtocolMessage, Sizing,
};

verus! {

/// What follows `lit` in `s`, when `s` starts with it.
pub open spec fn after(s: Seq<char>, lit: Seq<char>) -> Option<Seq<char>> {
    if lit.len() <= s.len() && s.subrange(0, lit.len() as int) == lit {
        Some(s.skip(lit.len() as int))
    } else {
        None
    }
}

/// The value of a lower-case hexadecimal digit.
pub open spec fn hex_value(c: char) -> Option<nat> {
    if c == '0' { Some(0) } else if c == '1' { Some(1) } else if c == '2' { Some(2) }
    else if c == '3' { Some(3) } else if c == '4' { Some(4) } else if c == '5' { Some(5) }
    else if c == '6' { Some(6) } else if c == '7' { Some(7) } else if c == '8' { Some(8) }
    else if c == '9' { Some(9) } else if c == 'a' { Some(10) } else if c == 'b' { Some(11) }
    else if c == 'c' { Some(12) } else if c == 'd' { Some(13) } else if c == 'e' { Some(14) }
    else if c == 'f' { Some(15) } else { None }
}

/// The value of a decimal digit.
pub open spec fn digit_value(c: char) -> Option<nat> {
    match hex_value(c) {
        Some(d) => if d < 10 { Some(d) } else { None },
        None => None,
    }
}

/// `c` in front of the text that was read, if anything was.
pub open spec fn prepend(c: char, r: Option<(Seq<char>, Seq<char>)>) -> Option<(Seq<char>, Seq<char>)> {
    match r {
        Some((b, rest)) => Some((seq![c] + b, rest)),
        None => None,
    }
}

/// Reads the inside of a JSON string literal up to its closing quote: the
/// text it stands for, and what follows the quote.
pub open spec fn unescape(s: Seq<char>) -> Option<(Seq<char>, Seq<char>)>
    decreases s.len(),
{
    if s.len() == 0 {
        None
    } else if s[0] == '"' {
        Some((Seq::empty(), s.drop_first()))
    } else if s[0] == '\\' {
        if s.len() >= 2 && (s[1] == '"' || s[1] == '\\') {
            prepend(s[1], unescape(s.skip(2)))
        } else if s.len() >= 6 && s[1] == 'u' && s[2] == '0' && s[3] == '0' && hex_value(s[4]) is Some
            && hex_value(s[4])->0 < 2 && hex_value(s[5]) is Some {
            prepend(
                ((16 * hex_value(s[4])->0 + hex_value(s[5])->0) as u8) as char,
                unescape(s.skip(6)),
            )
        } else {
            None
        }
    } else {
        prepend(s[0], unescape(s.drop_first()))
    }
}

/// Reads a JSON string literal.
pub open spec fn parse_quoted(s: Seq<char>) -> Option<(Seq<char>, Seq<char>)> {
    if s.len() > 0 && s[0] == '"' {
        unescape(s.drop_first())
    } else {
        None
    }
}

/// Reads decimal digits onto `acc` for as long as they last.
pub open spec fn read_digits(s: Seq<char>, acc: nat) -> (nat, Seq<char>)
    decreases s.len(),
{
    if s.len() > 0 && digit_value(s[0]) is Some {
        read_digits(s.drop_first(), acc * 10 + digit_value(s[0])->0)
    } else {
        (acc, s)
    }
}

/// Reads an unsigned decimal number.
pub open spec fn parse_nat(s: Seq<char>) -> Option<(nat, Seq<char>)> {
    if s.len() > 0 && digit_value(s[0]) is Some {
        Some(read_digits(s, 0))
    } else {
        None
    }
}

/// Reads a decimal number with an optional leading `-`.
pub open spec fn parse_int(s: Seq<char>) -> Option<(int, Seq<char>)> {
    if s.len() > 0 && s[0] == '-' {
        match parse_nat(s.drop_first()) {
            Some((n, r)) => Some((-n, r)),
            None => None,
        }
    } else {
        match parse_nat(s) {
            Some((n, r)) => Some((n as int, r)),
            None => None,
        }
    }
}

/// The direction with the given name.
pub open spec fn direction_of(t: Seq<char>) -> Option<OperationDirection> {
    if t == direction_name(OperationDirection::Left) { Some(OperationDirection::Left) }
    else if t == direction_name(OperationDirection::Right) { Some(OperationDirection::Right) }
    else if t == direction_name(OperationDirection::Up) { Some(OperationDirection::Up) }
    else if t == direction_name(OperationDirection::Down) { Some(OperationDirection::Down) }
    else { None }
}

/// The sizing with the given name.
pub open spec fn sizing_of(t: Seq<char>) -> Option<Sizing> {
    if t == sizing_name(Sizing::Increase) { Some(Sizing::Increase) }
    else if t == sizing_name(Sizing::Decrease) { Some(Sizing::Decrease) }
    else { None }
}

/// The axis with the given name.
pub open spec fn axis_of(t: Seq<char>) -> Option<Axis> {
    if t == axis_name(Axis::Horizontal) { Some(Axis::Horizontal) }
    else if t == axis_name(Axis::Vertical) { Some(Axis::Vertical) }
    else if t == axis_name(Axis::HorizontalAndVertical) { Some(Axis::HorizontalAndVertical) }
    else { None }
}

/// The identifier kind with the given name.
pub open spec fn identifier_of(t: Seq<char>) -> Option<ApplicationIdentifier> {
    if t == identifier_name(ApplicationIdentifier::Exe) { Some(ApplicationIdentifier::Exe) }
    else if t == identifier_name(ApplicationIdentifier::Class) { Some(ApplicationIdentifier::Class) }
    else if t == identifier_name(ApplicationIdentifier::Title) { Some(ApplicationIdentifier::Title) }
    else { None }
}

proof fn lemma_names_read_back(d: OperationDirection, z: Sizing, a: Axis, k: ApplicationIdentifier)
    ensures
        direction_of(direction_name(d)) == Some(d),
        sizing_of(sizing_name(z)) == Some(z),
        axis_of(axis_name(a)) == Some(a),
        identifier_of(identifier_name(k)) == Some(k),
{
    reveal_strlit("Left");
    reveal_strlit("Right");
    reveal_strlit("Up");
    reveal_strlit("Down");
    reveal_strlit("Increase");
    reveal_strlit("Decrease");
    reveal_strlit("Horizontal");
    reveal_strlit("Vertical");
    reveal_strlit("HorizontalAndVertical");
    reveal_strlit("Exe");
    reveal_strlit("Class");
    reveal_strlit("Title");
    assert("Left"@.len() == 4 && "Right"@.len() == 5 && "Up"@.len() == 2 && "Down"@.len() == 4);
    assert("Horizontal"@.len() == 10 && "Vertical"@.len() == 8 && "HorizontalAndVertical"@.len() == 21);
    assert("Exe"@.len() == 3 && "Class"@.len() == 5 && "Title"@.len() == 5);
    assert("Left"@[0] != "Down"@[0]);
    assert("Increase"@[0] != "Decrease"@[0]);
    assert("Class"@[0] != "Title"@[0]);
}

proof fn lemma_after(lit: Seq<char>, rest: Seq<char>)
    ensures
        after(lit + rest, lit) == Some(rest),
{
    assert((lit + rest).subrange(0, lit.len() as int) =~= lit);
    assert((lit + rest).skip(lit.len() as int) =~= rest);
}

proof fn lemma_escaped_concat(a: Seq<char>, b: Seq<char>)
    ensures
        escaped(a + b) == escaped(a) + escaped(b),
    decreases b.len(),
{
    if b.len() == 0 {
        assert(a + b =~= a);
        assert(escaped(a) + escaped(b) =~= escaped(a));
    } else {
        lemma_escaped_concat(a, b.drop_last());
        assert((a + b).drop_last() =~= a + b.drop_last());
        assert((a + b).last() == b.last());
        assert(escaped(a + b) =~= escaped(a) + escaped(b));
    }
}

proof fn lemma_escaped_front(s: Seq<char>)
    requires
        s.len() > 0,
    ensures
        escaped(s) == escape_char(s[0]) + escaped(s.drop_first()),
{
    lemma_escaped_concat(seq![s[0]], s.drop_first());
    assert(seq![s[0]] + s.drop_first() =~= s);
    let one = seq![s[0]];
    assert(one.drop_last() =~= Seq::<char>::empty());
    assert(escaped(one.drop_last()) =~= Seq::<char>::empty());
    assert(escaped(one) == escaped(one.drop_last()) + escape_char(one.last()));
    assert(escaped(one) =~= escape_char(s[0]));
}

proof fn lemma_char_code(c: char, d: char)
    requires
        c as u32 == d as u32,
    ensures
        c == d,
{
}

proof fn lemma_hex_round_trip(d: nat)
    requires
        d < 16,
    ensures
        hex_value(hex_digit(d)) == Some(d),
{
}

proof fn lemma_unescape_round_trip(s: Seq<char>, rest: Seq<char>)
    ensures
        unescape(escaped(s) + seq!['"'] + rest) == Some((s, rest)),
    decreases s.len(),
{
    let input = escaped(s) + seq!['"'] + rest;
    if s.len() == 0 {
        assert(input =~= seq!['"'] + rest);
        assert(input.drop_first() =~= rest);
    } else {
        let c = s[0];
        let tail = s.drop_first();
        let after_c = escaped(tail) + seq!['"'] + rest;
        lemma_escaped_front(s);
        lemma_unescape_round_trip(tail, rest);
        assert(input =~= escape_char(c) + after_c);
        if c == '"' || c == '\\' {
            assert(input.skip(2) =~= after_c);
        } else if (c as u32) < 0x20 {
            let v = c as u32;
            lemma_hex_round_trip((v / 16) as nat);
            lemma_hex_round_trip((v % 16) as nat);
            assert(input.skip(6) =~= after_c);
            let w: nat = 16 * ((v / 16) as nat) + (v % 16) as nat;
            assert(w == v as nat);
            assert((w as u8) == (v as u8));
            let b: u8 = v as u8;
            assert(b as u32 == v);
            assert((b as char) as u32 == b as u32);
            lemma_char_code(b as char, c);
        } else {
            assert(input.drop_first() =~= after_c);
        }
        assert(seq![c] + tail =~= s);
    }
}

/// A string literal reads back as the text it was written from.
proof fn lemma_quoted_round_trip(t: Seq<char>, rest: Seq<char>)
    ensures
        parse_quoted(quoted(t) + rest) == Some((t, rest)),
{
    lemma_unescape_round_trip(t, rest);
    assert((quoted(t) + rest).drop_first() =~= escaped(t) + seq!['"'] + rest);
}

/// The value of decimal digits read onto `acc`.
pub open spec fn fold_digits(ds: Seq<char>, acc: nat) -> nat
    decreases ds.len(),
{
    if ds.len() == 0 {
        acc
    } else {
        fold_digits(ds.drop_first(), acc * 10 + digit_value(ds[0])->0)
    }
}

/// Whether every character is a decimal digit.
pub open spec fn all_digits(ds: Seq<char>) -> bool {
    forall|i: int| 0 <= i < ds.len() ==> #[trigger] digit_value(ds[i]) is Some
}

/// Whether `s` does not start with a decimal digit.
pub open spec fn no_digit_first(s: Seq<char>) -> bool {
    s.len() > 0 && digit_value(s[0]) is None
}

proof fn lemma_digit_value(d: nat)
    requires
        d < 10,
    ensures
        digit_value(digit(d)) == Some(d),
{
}

proof fn lemma_read_prefix(ds: Seq<char>, rest: Seq<char>, acc: nat)
    requires
        all_digits(ds),
    ensures
        read_digits(ds + rest, acc) == read_digits(rest, fold_digits(ds, acc)),
    decreases ds.len(),
{
    if ds.len() > 0 {
        assert(digit_value(ds[0]) is Some);
        assert((ds + rest)[0] == ds[0]);
        assert((ds + rest).drop_first() =~= ds.drop_first() + rest);
        assert forall|i: int| 0 <= i < ds.drop_first().len() implies #[trigger] digit_value(ds.drop_first()[i]) is Some by {
            assert(ds.drop_first()[i] == ds[i + 1]);
        }
        lemma_read_prefix(ds.drop_first(), rest, acc * 10 + digit_value(ds[0])->0);
    } else {
        assert(ds + rest =~= rest);
    }
}

proof fn lemma_fold_push(ds: Seq<char>, d: char, acc: nat)
    ensures
        fold_digits(ds.push(d), acc) == fold_digits(ds, acc) * 10 + digit_value(d)->0,
    decreases ds.len(),
{
    if ds.len() > 0 {
        assert(ds.push(d)[0] == ds[0]);
        assert(ds.push(d).drop_first() =~= ds.drop_first().push(d));
        lemma_fold_push(ds.drop_first(), d, acc * 10 + digit_value(ds[0])->0);
    } else {
        assert(ds.push(d)[0] == d);
        assert(ds.push(d).drop_first() =~= Seq::<char>::empty());
        assert(fold_digits(Seq::<char>::empty(), acc * 10 + digit_value(d)->0) == acc * 10 + digit_value(d)->0);
    }
}

proof fn lemma_decimal_digits(n: nat)
    ensures
        all_digits(decimal(n)),
        decimal(n).len() > 0,
        fold_digits(decimal(n), 0) == n,
    decreases n,
{
    if n < 10 {
        lemma_digit_value(n);
        let one = seq![digit(n)];
        assert(decimal(n) =~= one);
        assert(one.drop_first() =~= Seq::<char>::empty());
        assert(fold_digits(one.drop_first(), 0 * 10 + digit_value(one[0])->0) == n);
    } else {
        lemma_digit_value(n % 10);
        lemma_decimal_digits(n / 10);
        lemma_fold_push(decimal(n / 10), digit(n % 10), 0);
        assert(decimal(n) == decimal(n / 10).push(digit(n % 10)));
        assert((n / 10) * 10 + n % 10 == n);
        let ds = decimal(n);
        assert forall|i: int| 0 <= i < ds.len() implies #[trigger] digit_value(ds[i]) is Some by {
            if i < ds.len() - 1 {
                assert(ds[i] == decimal(n / 10)[i]);
            }
        }
    }
}

/// A number written in decimal reads back, up to the next non-digit.
proof fn lemma_nat_round_trip(n: nat, rest: Seq<char>)
    requires
        no_digit_first(rest),
    ensures
        parse_nat(decimal(n) + rest) == Some((n, rest)),
{
    lemma_decimal_digits(n);
    lemma_read_prefix(decimal(n), rest, 0);
    assert((decimal(n) + rest)[0] == decimal(n)[0]);
    assert(digit_value(decimal(n)[0]) is Some);
}

proof fn lemma_int_round_trip(i: int, rest: Seq<char>)
    requires
        no_digit_first(rest),
    ensures
        parse_int(signed_decimal(i) + rest) == Some((i, rest)),
{
    if i < 0 {
        lemma_nat_round_trip((-i) as nat, rest);
        assert((signed_decimal(i) + rest).drop_first() =~= decimal((-i) as nat) + rest);
    } else {
        lemma_nat_round_trip(i as nat, rest);
        lemma_decimal_digits(i as nat);
        assert((decimal(i as nat) + rest)[0] == decimal(i as nat)[0]);
        assert(digit_value(decimal(i as nat)[0]) is Some);
    }
}

/// Reads up to the next quote: the text before it, and what follows it.
pub open spec fn take_until_quote(s: Seq<char>) -> Option<(Seq<char>, Seq<char>)>
    decreases s.len(),
{
    if s.len() == 0 {
        None
    } else if s[0] == '"' {
        Some((Seq::empty(), s.drop_first()))
    } else {
        prepend(s[0], take_until_quote(s.drop_first()))
    }
}

/// Whether `t` holds no quote.
pub open spec fn no_quote(t: Seq<char>) -> bool {
    forall|i: int| 0 <= i < t.len() ==> t[i] != '"'
}

proof fn lemma_take_until_quote(t: Seq<char>, rest: Seq<char>)
    requires
        no_quote(t),
    ensures
        take_until_quote(t + seq!['"'] + rest) == Some((t, rest)),
    decreases t.len(),
{
    let s = t + seq!['"'] + rest;
    if t.len() == 0 {
        assert(s.drop_first() =~= rest);
    } else {
        assert(s.drop_first() =~= t.drop_first() + seq!['"'] + rest);
        assert(t[0] != '"');
        lemma_take_until_quote(t.drop_first(), rest);
        assert(seq![t[0]] + t.drop_first() =~= t);
    }
}

/// Reads `[`, two string literals separated by `,`, and `]`.
pub open spec fn parse_two_texts(s: Seq<char>) -> Option<(Seq<char>, Seq<char>, Seq<char>)> {
    match after(s, seq!['[']) {
        None => None,
        Some(r0) => match parse_quoted(r0) {
            None => None,
            Some((a, r1)) => match after(r1, seq![',']) {
                None => None,
                Some(r2) => match parse_quoted(r2) {
                    None => None,
                    Some((b, r3)) => match after(r3, seq![']']) {
                        None => None,
                        Some(r4) => Some((a, b, r4)),
                    },
                },
            },
        },
    }
}

/// Reads `[`, two unsigned numbers and a signed one separated by `,`, and `]`.
pub open spec fn parse_three_numbers(s: Seq<char>) -> Option<(nat, nat, int, Seq<char>)> {
    match after(s, seq!['[']) {
        None => None,
        Some(r0) => match parse_nat(r0) {
            None => None,
            Some((a, r1)) => match after(r1, seq![',']) {
                None => None,
                Some(r2) => match parse_nat(r2) {
                    None => None,
                    Some((b, r3)) => match after(r3, seq![',']) {
                        None => None,
                        Some(r4) => match parse_int(r4) {
                            None => None,
                            Some((c, r5)) => match after(r5, seq![']']) {
                                None => None,
                                Some(r6) => Some((a, b, c, r6)),
                            },
                        },
                    },
                },
            },
        },
    }
}

proof fn lemma_two_texts_round_trip(a: Seq<char>, b: Seq<char>, rest: Seq<char>)
    ensures
        parse_two_texts(pair(quoted(a), quoted(b)) + rest) == Some((a, b, rest)),
{
    let s3 = seq![']'] + rest;
    let s2 = quoted(b) + s3;
    let s1 = seq![','] + s2;
    let s0 = quoted(a) + s1;
    assert(pair(quoted(a), quoted(b)) + rest =~= seq!['['] + s0);
    lemma_after(seq!['['], s0);
    lemma_quoted_round_trip(a, s1);
    lemma_after(seq![','], s2);
    lemma_quoted_round_trip(b, s3);
    lemma_after(seq![']'], rest);
}

proof fn lemma_three_numbers_round_trip(a: nat, b: nat, c: int, rest: Seq<char>)
    ensures
        parse_three_numbers(triple(decimal(a), decimal(b), signed_decimal(c)) + rest) == Some((a, b, c, rest)),
{
    let s5 = seq![']'] + rest;
    let s4 = signed_decimal(c) + s5;
    let s3 = seq![','] + s4;
    let s2 = decimal(b) + s3;
    let s1 = seq![','] + s2;
    let s0 = decimal(a) + s1;
    assert(triple(decimal(a), decimal(b), signed_decimal(c)) + rest =~= seq!['['] + s0);
    lemma_after(seq!['['], s0);
    lemma_nat_round_trip(a, s1);
    lemma_after(seq![','], s2);
    lemma_nat_round_trip(b, s3);
    lemma_after(seq![','], s4);
    lemma_int_round_trip(c, s5);
    lemma_after(seq![']'], rest);
}

/// A padding message from the numbers read, when they fit.
pub open spec fn padding_view(container: bool, m: nat, w: nat, p: int) -> Option<MessageView> {
    if m <= usize::MAX && w <= usize::MAX && i32::MIN <= p <= i32::MAX {
        if container {
            Some(MessageView::ContainerPadding(m as usize, w as usize, p as i32))
        } else {
            Some(MessageView::WorkspacePadding(m as usize, w as usize, p as i32))
        }
    } else {
        None
    }
}

/// An application rule message of the given tag.
pub open spec fn rule_view(tag: Seq<char>, k: ApplicationIdentifier, n: Seq<char>) -> MessageView {
    if tag == "FloatRule"@ {
        MessageView::FloatRule(k, n)
    } else if tag == "ManageRule"@ {
        MessageView::ManageRule(k, n)
    } else if tag == "IdentifyTrayApplication"@ {
        MessageView::IdentifyTrayApplication(k, n)
    } else if tag == "IdentifyObjectNameChangeApplication"@ {
        MessageView::IdentifyObjectNameChangeApplication(k, n)
    } else if tag == "IdentifyBorderOverflowApplication"@ {
        MessageView::IdentifyBorderOverflowApplication(k, n)
    } else {
        MessageView::IdentifyLayeredApplication(k, n)
    }
}

/// Whether a tag names an application rule message.
pub open spec fn is_rule_tag(tag: Seq<char>) -> bool {
    tag == "FloatRule"@ || tag == "ManageRule"@ || tag == "IdentifyTrayApplication"@
        || tag == "IdentifyObjectNameChangeApplication"@ || tag == "IdentifyBorderOverflowApplication"@
        || tag == "IdentifyLayeredApplication"@
}

/// Reads the content of a message of the given tag: the message, and what
/// follows the content.
pub open spec fn content_of(tag: Seq<char>, s: Seq<char>) -> Option<(MessageView, Seq<char>)> {
    if tag == "FocusWindow"@ || tag == "MoveWindow"@ {
        match parse_quoted(s) {
            Some((t, r)) => match direction_of(t) {
                Some(d) => Some((
                    if tag == "FocusWindow"@ { MessageView::FocusWindow(d) } else { MessageView::MoveWindow(d) },
                    r,
                )),
                None => None,
            },
            None => None,
        }
    } else if tag == "ResizeWindowEdge"@ {
        match parse_two_texts(s) {
            Some((a, b, r)) => match (direction_of(a), sizing_of(b)) {
                (Some(d), Some(z)) => Some((MessageView::ResizeWindowEdge(d, z), r)),
                _ => None,
            },
            None => None,
        }
    } else if tag == "ResizeWindowAxis"@ {
        match parse_two_texts(s) {
            Some((a, b, r)) => match (axis_of(a), sizing_of(b)) {
                (Some(x), Some(z)) => Some((MessageView::ResizeWindowAxis(x, z), r)),
                _ => None,
            },
            None => None,
        }
    } else if tag == "ContainerPadding"@ || tag == "WorkspacePadding"@ {
        match parse_three_numbers(s) {
            Some((m, w, p, r)) => match padding_view(tag == "ContainerPadding"@, m, w, p) {
                Some(v) => Some((v, r)),
                None => None,
            },
            None => None,
        }
    } else if is_rule_tag(tag) {
        match parse_two_texts(s) {
            Some((a, n, r)) => match identifier_of(a) {
                Some(k) => Some((rule_view(tag, k, n), r)),
                None => None,
            },
            None => None,
        }
    } else {
        None
    }
}

/// Reads one message in the wire encoding; `None` when the text is not one.
pub open spec fn decode_spec(s: Seq<char>) -> Option<MessageView> {
    match after(s, "{\"type\":\""@) {
        None => None,
        Some(r1) => match take_until_quote(r1) {
            None => None,
            Some((t, r2)) => if t == "Stop"@ {
                if r2 == "}"@ { Some(MessageView::Stop) } else { None }
            } else {
                match after(r2, ",\"content\":"@) {
                    None => None,
                    Some(r3) => match content_of(t, r3) {
                        Some((m, r4)) => if r4 == "}"@ { Some(m) } else { None },
                        None => None,
                    },
                }
            },
        },
    }
}

/// The tags hold no quote and tell the variants apart.
proof fn lemma_tags(m: ProtocolMessage)
    ensures
        no_quote(tag_name(m)),
        (tag_name(m) == "Stop"@) == (m is Stop),
        (tag_name(m) == "FocusWindow"@) == (m is FocusWindow),
        (tag_name(m) == "MoveWindow"@) == (m is MoveWindow),
        (tag_name(m) == "ResizeWindowEdge"@) == (m is ResizeWindowEdge),
        (tag_name(m) == "ResizeWindowAxis"@) == (m is ResizeWindowAxis),
        (tag_name(m) == "ContainerPadding"@) == (m is ContainerPadding),
        (tag_name(m) == "WorkspacePadding"@) == (m is WorkspacePadding),
        (tag_name(m) == "FloatRule"@) == (m is FloatRule),
        (tag_name(m) == "ManageRule"@) == (m is ManageRule),
        (tag_name(m) == "IdentifyTrayApplication"@) == (m is IdentifyTrayApplication),
        (tag_name(m) == "IdentifyObjectNameChangeApplication"@) == (m is IdentifyObjectNameChangeApplication),
        (tag_name(m) == "IdentifyBorderOverflowApplication"@) == (m is IdentifyBorderOverflowApplication),
        (tag_name(m) == "IdentifyLayeredApplication"@) == (m is IdentifyLayeredApplication),
{
    reveal_strlit("FocusWindow");
    reveal_strlit("MoveWindow");
    reveal_strlit("ResizeWindowEdge");
    reveal_strlit("ResizeWindowAxis");
    reveal_strlit("ContainerPadding");
    reveal_strlit("WorkspacePadding");
    reveal_strlit("FloatRule");
    reveal_strlit("ManageRule");
    reveal_strlit("IdentifyTrayApplication");
    reveal_strlit("IdentifyObjectNameChangeApplication");
    reveal_strlit("IdentifyBorderOverflowApplication");
    reveal_strlit("IdentifyLayeredApplication");
    reveal_strlit("Stop");
    assert("FocusWindow"@.len() == 11);
    assert("MoveWindow"@.len() == 10);
    assert("ResizeWindowEdge"@.len() == 16);
    assert("ResizeWindowAxis"@.len() == 16);
    assert("ContainerPadding"@.len() == 16);
    assert("WorkspacePadding"@.len() == 16);
    assert("FloatRule"@.len() == 9);
    assert("ManageRule"@.len() == 10);
    assert("IdentifyTrayApplication"@.len() == 23);
    assert("IdentifyObjectNameChangeApplication"@.len() == 35);
    assert("IdentifyBorderOverflowApplication"@.len() == 33);
    assert("IdentifyLayeredApplication"@.len() == 26);
    assert("Stop"@.len() == 4);
    assert("MoveWindow"@[1] != "ManageRule"@[1]);
    assert("ResizeWindowEdge"@[12] != "ResizeWindowAxis"@[12]);
    assert("ResizeWindowEdge"@[0] != "ContainerPadding"@[0]);
    assert("ResizeWindowEdge"@[0] != "WorkspacePadding"@[0]);
    assert("ResizeWindowAxis"@[0] != "ContainerPadding"@[0]);
    assert("ResizeWindowAxis"@[0] != "WorkspacePadding"@[0]);
    assert("ContainerPadding"@[0] != "WorkspacePadding"@[0]);
}

proof fn lemma_content_round_trip(m: ProtocolMessage, rest: Seq<char>)
    requires
        !(m is Stop),
    ensures
        content_of(tag_name(m), content(m) + rest) == Some((m@, rest)),
{
    lemma_tags(m);
    match m {
        ProtocolMessage::FocusWindow(d) | ProtocolMessage::MoveWindow(d) => {
            lemma_quoted_round_trip(direction_name(d), rest);
            lemma_names_read_back(d, Sizing::Increase, Axis::Vertical, ApplicationIdentifier::Exe);
        },
        ProtocolMessage::ResizeWindowEdge(d, z) => {
            lemma_two_texts_round_trip(direction_name(d), sizing_name(z), rest);
            lemma_names_read_back(d, z, Axis::Vertical, ApplicationIdentifier::Exe);
        },
        ProtocolMessage::ResizeWindowAxis(a, z) => {
            lemma_two_texts_round_trip(axis_name(a), sizing_name(z), rest);
            lemma_names_read_back(OperationDirection::Up, z, a, ApplicationIdentifier::Exe);
        },
        ProtocolMessage::ContainerPadding(a, b, c) | ProtocolMessage::WorkspacePadding(a, b, c) => {
            lemma_three_numbers_round_trip(a as nat, b as nat, c as int, rest);
        },
        ProtocolMessage::FloatRule(k, n) | ProtocolMessage::ManageRule(k, n)
        | ProtocolMessage::IdentifyTrayApplication(k, n)
        | ProtocolMessage::IdentifyObjectNameChangeApplication(k, n)
        | ProtocolMessage::IdentifyBorderOverflowApplication(k, n)
        | ProtocolMessage::IdentifyLayeredApplication(k, n) => {
            lemma_two_texts_round_trip(identifier_name(k), n@, rest);
            lemma_names_read_back(OperationDirection::Up, Sizing::Increase, Axis::Vertical, k);
        },
        ProtocolMessage::Stop => {},
    }
}

/// Reading the wire encoding of a message gives the message back.
pub proof fn lemma_decode_encode(m: ProtocolMessage)
    ensures
        decode_spec(wire(m)) == Some(m@),
{
    let head = "{\"type\":\""@;
    let tag = tag_name(m);
    lemma_tags(m);
    reveal_strlit("{\"type\":\"Stop\"}");
    reveal_strlit("{\"type\":\"");
    reveal_strlit("\",\"content\":");
    reveal_strlit(",\"content\":");
    reveal_strlit("}");
    reveal_strlit("Stop");
    if m is Stop {
        let tail = "}"@;
        assert(wire(m) =~= head + (tag + seq!['"'] + tail));
        lemma_after(head, tag + seq!['"'] + tail);
        lemma_take_until_quote(tag, tail);
        assert(after(wire(m), head) == Some(tag + seq!['"'] + tail));
        assert(tag == "Stop"@);
    } else {
        let tail = ",\"content\":"@ + content(m) + "}"@;
        assert(wire(m) =~= head + (tag + seq!['"'] + tail));
        lemma_after(head, tag + seq!['"'] + tail);
        lemma_take_until_quote(tag, tail);
        assert(tail =~= ",\"content\":"@ + (content(m) + "}"@));
        lemma_after(",\"content\":"@, content(m) + "}"@);
        lemma_content_round_trip(m, "}"@);
        assert(after(wire(m), head) == Some(tag + seq!['"'] + tail));
        assert(take_until_quote(tag + seq!['"'] + tail) == Some((tag, tail)));
        assert(tag != "Stop"@);
        assert(after(tail, ",\"content\":"@) == Some(content(m) + "}"@));
    }
}

/// The text that was read, after `a`.
pub open spec fn prepend_all(a: Seq<char>, r: Option<(Seq<char>, Seq<char>)>) -> Option<(Seq<char>, Seq<char>)> {
    match r {
        Some((b, rest)) => Some((a + b, rest)),
        None => None,
    }
}

fn hex_value_of(c: char) -> (r: Option<u32>)
    ensures
        match hex_value(c) {
            Some(v) => r == Some(v as u32),
            None => r is None,
        },
{
    if c == '0' { Some(0) } else if c == '1' { Some(1) } else if c == '2' { Some(2) }
    else if c == '3' { Some(3) } else if c == '4' { Some(4) } else if c == '5' { Some(5) }
    else if c == '6' { Some(6) } else if c == '7' { Some(7) } else if c == '8' { Some(8) }
    else if c == '9' { Some(9) } else if c == 'a' { Some(10) } else if c == 'b' { Some(11) }
    else if c == 'c' { Some(12) } else if c == 'd' { Some(13) } else if c == 'e' { Some(14) }
    else if c == 'f' { Some(15) } else { None }
}

/// The characters of `text`.
fn chars_of(text: &str) -> (r: Vec<char>)
    ensures
        r@ == text@,
{
    let n = text.unicode_len();
    let mut r: Vec<char> = Vec::new();
    let mut i: usize = 0;
    while i < n
        invariant
            n == text@.len(),
            i <= n,
            r@ == text@.subrange(0, i as int),
        decreases n - i,
    {
        r.push(text.get_char(i));
        assert(r@ =~= text@.subrange(0, i + 1));
        i = i + 1;
    }
    assert(text@.subrange(0, n as int) =~= text@);
    r
}

/// Where `s` goes on after `lit`, from `pos`.
fn after_at(s: &Vec<char>, pos: usize, lit: &str) -> (r: Option<usize>)
    requires
        pos <= s@.len(),
    ensures
        match after(s@.skip(pos as int), lit@) {
            Some(rest) => r matches Some(p) && pos <= p <= s@.len() && s@.skip(p as int) == rest,
            None => r is None,
        },
{
    let n = lit.unicode_len();
    let len = s.len();
    if n > len - pos {
        return None;
    }
    let mut i: usize = 0;
    while i < n
        invariant
            n == lit@.len(),
            len == s@.len(),
            pos + n <= len,
            i <= n,
            forall|j: int| 0 <= j < i ==> s@[pos + j] == lit@[j],
        decreases n - i,
    {
        if s[pos + i] != lit.get_char(i) {
            assert(s@.skip(pos as int).subrange(0, n as int)[i as int] != lit@[i as int]);
            return None;
        }
        i = i + 1;
    }
    assert(s@.skip(pos as int).subrange(0, n as int) =~= lit@);
    assert(s@.skip(pos as int).skip(n as int) =~= s@.skip(pos + n));
    Some(pos + n)
}

/// Whether `s` holds `c` at `pos`; then where it goes on.
fn char_at(s: &Vec<char>, pos: usize, c: char) -> (r: Option<usize>)
    requires
        pos <= s@.len(),
    ensures
        match after(s@.skip(pos as int), seq![c]) {
            Some(rest) => r matches Some(p) && pos <= p <= s@.len() && s@.skip(p as int) == rest,
            None => r is None,
        },
{
    if pos < s.len() && s[pos] == c {
        assert(s@.skip(pos as int).subrange(0, 1) =~= seq![c]);
        assert(s@.skip(pos as int).skip(1) =~= s@.skip(pos + 1));
        Some(pos + 1)
    } else {
        if pos < s.len() {
            assert(s@.skip(pos as int).subrange(0, 1)[0] != c);
        }
        None
    }
}

proof fn lemma_skip_next(s: Seq<char>, pos: int, k: int)
    requires
        0 <= pos,
        0 <= k,
        pos + k <= s.len(),
    ensures
        s.skip(pos).skip(k) == s.skip(pos + k),
        k == 1 ==> s.skip(pos).drop_first() == s.skip(pos + 1),
{
    assert(s.skip(pos).skip(k) =~= s.skip(pos + k));
    if k == 1 {
        assert(s.skip(pos).drop_first() =~= s.skip(pos + 1));
    }
}

/// Reads a JSON string literal from `pos`.
fn read_quoted(s: &Vec<char>, pos: usize) -> (r: Option<(String, usize)>)
    requires
        pos <= s@.len(),
    ensures
        match parse_quoted(s@.skip(pos as int)) {
            Some((t, rest)) => r matches Some((v, p)) && v@ == t && pos <= p <= s@.len() && s@.skip(p as int) == rest,
            None => r is None,
        },
{
    if pos >= s.len() || s[pos] != '"' {
        return None;
    }
    proof {
        lemma_skip_next(s@, pos as int, 1);
    }
    assert(s@.skip(pos as int)[0] == s@[pos as int]);
    let start: usize = pos + 1;
    let mut i: usize = start;
    let mut acc = String::new();
    while i < s.len()
        invariant
            start <= i <= s@.len(),
            start == pos + 1,
            parse_quoted(s@.skip(pos as int)) == unescape(s@.skip(start as int)),
            unescape(s@.skip(start as int)) == prepend_all(acc@, unescape(s@.skip(i as int))),
        decreases s@.len() - i,
    {
        let ghost here = s@.skip(i as int);
        assert(here[0] == s@[i as int]);
        let c = s[i];
        if c == '"' {
            proof {
                lemma_skip_next(s@, i as int, 1);
            }
            assert(acc@ + Seq::<char>::empty() =~= acc@);
            return Some((acc, i + 1));
        } else if c == '\\' {
            if i + 1 < s.len() && (s[i + 1] == '"' || s[i + 1] == '\\') {
                let e = s[i + 1];
                assert(here[1] == e);
                proof {
                    lemma_skip_next(s@, i as int, 2);
                }
                let ghost before = acc@;
                push_char(&mut acc, e);
                assert(before + (seq![e] + Seq::<char>::empty()) =~= acc@ + Seq::<char>::empty());
                proof {
                    lemma_prepend_all(before, e, unescape(s@.skip(i + 2)));
                }
                i = i + 2;
            } else if s.len() - i > 5 && s[i + 1] == 'u' && s[i + 2] == '0' && s[i + 3] == '0' {
                let high = hex_value_of(s[i + 4]);
                let low = hex_value_of(s[i + 5]);
                assert(here[1] == s@[i + 1] && here[2] == s@[i + 2] && here[3] == s@[i + 3]);
                assert(here[4] == s@[i + 4] && here[5] == s@[i + 5]);
                match (high, low) {
                    (Some(h), Some(l)) => {
                        if h >= 2 {
                            return None;
                        }
                        let b: u8 = (16 * h + l) as u8;
                        proof {
                            lemma_skip_next(s@, i as int, 6);
                            lemma_prepend_all(acc@, b as char, unescape(s@.skip(i + 6)));
                        }
                        push_char(&mut acc, b as char);
                        i = i + 6;
                    },
                    _ => {
                        return None;
                    },
                }
            } else {
                if i + 1 < s.len() {
                    assert(here[1] == s@[i + 1]);
                }
                if s.len() - i > 5 {
                    assert(here[1] == s@[i + 1] && here[2] == s@[i + 2] && here[3] == s@[i + 3]);
                }
                return None;
            }
        } else {
            proof {
                lemma_skip_next(s@, i as int, 1);
                lemma_prepend_all(acc@, c, unescape(s@.skip(i + 1)));
            }
            push_char(&mut acc, c);
            i = i + 1;
        }
    }
    assert(s@.skip(i as int).len() == 0);
    None
}

proof fn lemma_prepend_all(a: Seq<char>, c: char, r: Option<(Seq<char>, Seq<char>)>)
    ensures
        prepend_all(a, prepend(c, r)) == prepend_all(a.push(c), r),
{
    if let Some((b, rest)) = r {
        assert(a + (seq![c] + b) =~= a.push(c) + b);
    }
}

proof fn lemma_read_digits_grows(s: Seq<char>, acc: nat)
    ensures
        read_digits(s, acc).0 >= acc,
    decreases s.len(),
{
    if s.len() > 0 && digit_value(s[0]) is Some {
        lemma_read_digits_grows(s.drop_first(), acc * 10 + digit_value(s[0])->0);
    }
}

/// Reads an unsigned decimal number from `pos`; `None` also when it exceeds
/// `bound`.
fn read_nat(s: &Vec<char>, pos: usize, bound: u64) -> (r: Option<(u64, usize)>)
    requires
        pos <= s@.len(),
    ensures
        match parse_nat(s@.skip(pos as int)) {
            Some((n, rest)) => if n <= bound {
                r matches Some((v, p)) && v == n && pos <= p <= s@.len() && s@.skip(p as int) == rest
            } else {
                r is None
            },
            None => r is None,
        },
{
    if pos >= s.len() {
        return None;
    }
    let first = hex_value_of(s[pos]);
    assert(s@.skip(pos as int)[0] == s@[pos as int]);
    match first {
        Some(d) => {
            if d >= 10 {
                return None;
            }
        },
        None => {
            return None;
        },
    }
    let mut acc: u64 = 0;
    let mut i: usize = pos;
    while i < s.len()
        invariant
            pos <= i <= s@.len(),
            acc <= bound,
            parse_nat(s@.skip(pos as int)) == Some(read_digits(s@.skip(pos as int), 0)),
            read_digits(s@.skip(pos as int), 0) == read_digits(s@.skip(i as int), acc as nat),
        decreases s@.len() - i,
    {
        let ghost here = s@.skip(i as int);
        assert(here[0] == s@[i as int]);
        let h = hex_value_of(s[i]);
        let d: u64 = match h {
            Some(v) => {
                if v >= 10 {
                    return Some((acc, i));
                }
                v as u64
            },
            None => {
                return Some((acc, i));
            },
        };
        proof {
            lemma_skip_next(s@, i as int, 1);
        }
        if d > bound || acc > (bound - d) / 10 {
            proof {
                lemma_read_digits_grows(s@.skip(i + 1), (acc * 10 + d) as nat);
                if d <= bound {
                    assert(acc * 10 + d > bound) by (nonlinear_arith)
                        requires
                            acc > (bound - d) / 10,
                            d <= bound,
                    ;
                }
            }
            return None;
        }
        proof {
            assert(acc * 10 + d <= bound) by (nonlinear_arith)
                requires
                    acc <= (bound - d) / 10,
                    d <= bound,
            ;
        }
        acc = acc * 10 + d;
        i = i + 1;
    }
    Some((acc, i))
}

/// Reads a decimal number with an optional leading `-` from `pos`; `None`
/// also when it does not fit an `i32`.
fn read_int(s: &Vec<char>, pos: usize) -> (r: Option<(i32, usize)>)
    requires
        pos <= s@.len(),
    ensures
        match parse_int(s@.skip(pos as int)) {
            Some((n, rest)) => if i32::MIN <= n <= i32::MAX {
                r matches Some((v, p)) && v == n && pos <= p <= s@.len() && s@.skip(p as int) == rest
            } else {
                r is None
            },
            None => r is None,
        },
{
    if pos < s.len() && s[pos] == '-' {
        assert(s@.skip(pos as int)[0] == s@[pos as int]);
        proof {
            lemma_skip_next(s@, pos as int, 1);
        }
        match read_nat(s, pos + 1, 0x8000_0000) {
            Some((n, p)) => {
                let v: i64 = -(n as i64);
                Some((v as i32, p))
            },
            None => None,
        }
    } else {
        if pos < s.len() {
            assert(s@.skip(pos as int)[0] == s@[pos as int]);
        }
        match read_nat(s, pos, 0x7FFF_FFFF) {
            Some((n, p)) => Some((n as i32, p)),
            None => None,
        }
    }
}

/// Reads `[`, two string literals separated by `,`, and `]` from `pos`.
fn read_two_texts(s: &Vec<char>, pos: usize) -> (r: Option<(String, String, usize)>)
    requires
        pos <= s@.len(),
    ensures
        match parse_two_texts(s@.skip(pos as int)) {
            Some((a, b, rest)) => r matches Some((x, y, p)) && x@ == a && y@ == b && pos <= p <= s@.len()
                && s@.skip(p as int) == rest,
            None => r is None,
        },
{
    let p0 = match char_at(s, pos, '[') {
        Some(p) => p,
        None => return None,
    };
    let (a, p1) = match read_quoted(s, p0) {
        Some(x) => x,
        None => return None,
    };
    let p2 = match char_at(s, p1, ',') {
        Some(p) => p,
        None => return None,
    };
    let (b, p3) = match read_quoted(s, p2) {
        Some(x) => x,
        None => return None,
    };
    let p4 = match char_at(s, p3, ']') {
        Some(p) => p,
        None => return None,
    };
    Some((a, b, p4))
}

/// Reads `[`, two unsigned numbers and a signed one separated by `,`, and
/// `]` from `pos`; `None` also when a number does not fit its type.
fn read_three_numbers(s: &Vec<char>, pos: usize) -> (r: Option<(usize, usize, i32, usize)>)
    requires
        pos <= s@.len(),
    ensures
        match parse_three_numbers(s@.skip(pos as int)) {
            Some((a, b, c, rest)) => if a <= usize::MAX && b <= usize::MAX && i32::MIN <= c <= i32::MAX {
                r matches Some((x, y, z, p)) && x == a && y == b && z == c && pos <= p <= s@.len()
                    && s@.skip(p as int) == rest
            } else {
                r is None
            },
            None => r is None,
        },
{
    let p0 = match char_at(s, pos, '[') {
        Some(p) => p,
        None => return None,
    };
    let (a, p1) = match read_nat(s, p0, usize::MAX as u64) {
        Some(x) => x,
        None => return None,
    };
    let p2 = match char_at(s, p1, ',') {
        Some(p) => p,
        None => return None,
    };
    let (b, p3) = match read_nat(s, p2, usize::MAX as u64) {
        Some(x) => x,
        None => return None,
    };
    let p4 = match char_at(s, p3, ',') {
        Some(p) => p,
        None => return None,
    };
    let (c, p5) = match read_int(s, p4) {
        Some(x) => x,
        None => return None,
    };
    let p6 = match char_at(s, p5, ']') {
        Some(p) => p,
        None => return None,
    };
    Some((a as usize, b as usize, c, p6))
}

fn direction_from(t: &String) -> (r: Option<OperationDirection>)
    ensures
        r == direction_of(t@),
{
    if *t == String::from_str(OperationDirection::Left.name()) {
        Some(OperationDirection::Left)
    } else if *t == String::from_str(OperationDirection::Right.name()) {
        Some(OperationDirection::Right)
    } else if *t == String::from_str(OperationDirection::Up.name()) {
        Some(OperationDirection::Up)
    } else if *t == String::from_str(OperationDirection::Down.name()) {
        Some(OperationDirection::Down)
    } else {
        None
    }
}

fn sizing_from(t: &String) -> (r: Option<Sizing>)
    ensures
        r == sizing_of(t@),
{
    if *t == String::from_str(Sizing::Increase.name()) {
        Some(Sizing::Increase)
    } else if *t == String::from_str(Sizing::Decrease.name()) {
        Some(Sizing::Decrease)
    } else {
        None
    }
}

fn axis_from(t: &String) -> (r: Option<Axis>)
    ensures
        r == axis_of(t@),
{
    if *t == String::from_str(Axis::Horizontal.name()) {
        Some(Axis::Horizontal)
    } else if *t == String::from_str(Axis::Vertical.name()) {
        Some(Axis::Vertical)
    } else if *t == String::from_str(Axis::HorizontalAndVertical.name()) {
        Some(Axis::HorizontalAndVertical)
    } else {
        None
    }
}

fn identifier_from(t: &String) -> (r: Option<ApplicationIdentifier>)
    ensures
        r == identifier_of(t@),
{
    if *t == String::from_str(ApplicationIdentifier::Exe.name()) {
        Some(ApplicationIdentifier::Exe)
    } else if *t == String::from_str(ApplicationIdentifier::Class.name()) {
        Some(ApplicationIdentifier::Class)
    } else if *t == String::from_str(ApplicationIdentifier::Title.name()) {
        Some(ApplicationIdentifier::Title)
    } else {
        None
    }
}

fn text_is(t: &String, lit: &str) -> (r: bool)
    ensures
        r == (t@ == lit@),
{
    *t == String::from_str(lit)
}

fn rule_message(tag: &String, k: ApplicationIdentifier, n: String) -> (r: ProtocolMessage)
    ensures
        r@ == rule_view(tag@, k, n@),
{
    if text_is(tag, "FloatRule") {
        ProtocolMessage::FloatRule(k, n)
    } else if text_is(tag, "ManageRule") {
        ProtocolMessage::ManageRule(k, n)
    } else if text_is(tag, "IdentifyTrayApplication") {
        ProtocolMessage::IdentifyTrayApplication(k, n)
    } else if text_is(tag, "IdentifyObjectNameChangeApplication") {
        ProtocolMessage::IdentifyObjectNameChangeApplication(k, n)
    } else if text_is(tag, "IdentifyBorderOverflowApplication") {
        ProtocolMessage::IdentifyBorderOverflowApplication(k, n)
    } else {
        ProtocolMessage::IdentifyLayeredApplication(k, n)
    }
}

/// Reads the content of a message of the given tag from `pos`.
fn read_content(s: &Vec<char>, pos: usize, tag: &String) -> (r: Option<(ProtocolMessage, usize)>)
    requires
        pos <= s@.len(),
    ensures
        match content_of(tag@, s@.skip(pos as int)) {
            Some((v, rest)) => r matches Some((m, p)) && m@ == v && pos <= p <= s@.len() && s@.skip(p as int)
                == rest,
            None => r is None,
        },
{
    let focus = text_is(tag, "FocusWindow");
    if focus || text_is(tag, "MoveWindow") {
        match read_quoted(s, pos) {
            Some((t, p)) => match direction_from(&t) {
                Some(d) => Some((
                    if focus { ProtocolMessage::FocusWindow(d) } else { ProtocolMessage::MoveWindow(d) },
                    p,
                )),
                None => None,
            },
            None => None,
        }
    } else if text_is(tag, "ResizeWindowEdge") {
        match read_two_texts(s, pos) {
            Some((a, b, p)) => match (direction_from(&a), sizing_from(&b)) {
                (Some(d), Some(z)) => Some((ProtocolMessage::ResizeWindowEdge(d, z), p)),
                _ => None,
            },
            None => None,
        }
    } else if text_is(tag, "ResizeWindowAxis") {
        match read_two_texts(s, pos) {
            Some((a, b, p)) => match (axis_from(&a), sizing_from(&b)) {
                (Some(x), Some(z)) => Some((ProtocolMessage::ResizeWindowAxis(x, z), p)),
                _ => None,
            },
            None => None,
        }
    } else {
        let container = text_is(tag, "ContainerPadding");
        if container || text_is(tag, "WorkspacePadding") {
            match read_three_numbers(s, pos) {
                Some((m, w, pad, p)) => Some((
                    if container {
                        ProtocolMessage::ContainerPadding(m, w, pad)
                    } else {
                        ProtocolMessage::WorkspacePadding(m, w, pad)
                    },
                    p,
                )),
                None => None,
            }
        } else if text_is(tag, "FloatRule") || text_is(tag, "ManageRule") || text_is(tag, "IdentifyTrayApplication")
            || text_is(tag, "IdentifyObjectNameChangeApplication") || text_is(tag, "IdentifyBorderOverflowApplication")
            || text_is(tag, "IdentifyLayeredApplication") {
            match read_two_texts(s, pos) {
                Some((a, n, p)) => match identifier_from(&a) {
                    Some(k) => Some((rule_message(tag, k, n), p)),
                    None => None,
                },
                None => None,
            }
        } else {
            None
        }
    }
}

/// Reads up to the next quote from `pos`: the text before it, and where the
/// text goes on after it.
fn read_until_quote(s: &Vec<char>, pos: usize) -> (r: Option<(String, usize)>)
    requires
        pos <= s@.len(),
    ensures
        match take_until_quote(s@.skip(pos as int)) {
            Some((t, rest)) => r matches Some((v, p)) && v@ == t && pos <= p <= s@.len() && s@.skip(p as int) == rest,
            None => r is None,
        },
{
    let mut i: usize = pos;
    let mut acc = String::new();
    while i < s.len()
        invariant
            pos <= i <= s@.len(),
            take_until_quote(s@.skip(pos as int)) == prepend_all(acc@, take_until_quote(s@.skip(i as int))),
        decreases s@.len() - i,
    {
        assert(s@.skip(i as int)[0] == s@[i as int]);
        proof {
            lemma_skip_next(s@, i as int, 1);
        }
        let c = s[i];
        if c == '"' {
            assert(acc@ + Seq::<char>::empty() =~= acc@);
            return Some((acc, i + 1));
        }
        proof {
            lemma_prepend_all(acc@, c, take_until_quote(s@.skip(i + 1)));
        }
        push_char(&mut acc, c);
        i = i + 1;
    }
    assert(s@.skip(i as int).len() == 0);
    None
}

proof fn lemma_after_whole(r: Seq<char>, lit: Seq<char>)
    ensures
        (r == lit) <==> (after(r, lit) matches Some(rest) && rest.len() == 0),
{
    if r == lit {
        assert(r.subrange(0, lit.len() as int) =~= lit);
    }
    if after(r, lit) matches Some(rest) && rest.len() == 0 {
        assert(r =~= lit);
    }
}

/// Whether `s` from `pos` is exactly `lit`.
fn rest_is(s: &Vec<char>, pos: usize, lit: &str) -> (r: bool)
    requires
        pos <= s@.len(),
    ensures
        r == (s@.skip(pos as int) == lit@),
{
    proof {
        lemma_after_whole(s@.skip(pos as int), lit@);
    }
    match after_at(s, pos, lit) {
        Some(p) => p == s.len(),
        None => false,
    }
}

/// Reads one message in the wire encoding, as the window manager's end of
/// the socket does; `None` when the text is not one.
pub fn decode(text: &str) -> (r: Option<ProtocolMessage>)
    ensures
        match decode_spec(text@) {
            Some(v) => r matches Some(m) && m@ == v,
            None => r is None,
        },
{
    let s = chars_of(text);
    assert(s@.skip(0) =~= text@);
    let p1 = match after_at(&s, 0, "{\"type\":\"") {
        Some(p) => p,
        None => return None,
    };
    let (tag, p2) = match read_until_quote(&s, p1) {
        Some(x) => x,
        None => return None,
    };
    if text_is(&tag, "Stop") {
        return if rest_is(&s, p2, "}") {
            Some(ProtocolMessage::Stop)
        } else {
            None
        };
    }
    let p3 = match after_at(&s, p2, ",\"content\":") {
        Some(p) => p,
        None => return None,
    };
    match read_content(&s, p3, &tag) {
        Some((m, p4)) => if rest_is(&s, p4, "}") {
            Some(m)
        } else {
            None
        },
        None => None,
    }
}

} // verus!

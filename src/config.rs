//! The configuration and its compilation into the ordered setup messages sent
//! at startup and the table of key bindings.
use vstd::prelude::*;
use crate::keyboard::VirtualKey;
use crate::message::{ApplicationIdentifier, Message, ProtocolMessage};

verus! {

/// Identifies one application by kind and name.
#[derive(Clone, Debug)]
pub struct Rule {
    pub identifier: ApplicationIdentifier,
    pub name: String,
}

/// A window declaration: the categories it enables, and the applications it
/// applies to.
#[derive(Clone, Debug)]
pub struct Window {
    pub bordered: Option<bool>,
    pub floating: Option<bool>,
    pub layered: Option<bool>,
    pub managed: Option<bool>,
    pub name_change: Option<bool>,
    pub tray: Option<bool>,
    pub rules: Vec<Rule>,
}

/// Padding for one workspace of one monitor.
#[derive(Clone, Copy, Debug, PartialEq, Eq, Structural)]
pub struct Padding {
    pub monitor: usize,
    pub workspace: usize,
    pub padding: i32,
}

/// A key and the command it triggers.
#[derive(Clone, Copy, Debug, PartialEq, Eq, Structural)]
pub struct Binding {
    pub key: VirtualKey,
    pub command: Message,
}

/// The whole configuration, as read from its file.
#[derive(Clone, Debug)]
pub struct Konfig {
    pub container_padding: Option<Padding>,
    pub workspace_padding: Option<Padding>,
    /// Commands sent verbatim after the rules and the padding.
    pub default: Vec<ProtocolMessage>,
    /// Key bindings in declaration order.
    pub keys: Vec<Binding>,
    pub windows: Vec<Window>,
}

/// Why a configuration does not compile.
#[derive(Clone, Copy, Debug, PartialEq, Eq, Structural)]
pub enum ConfigError {
    /// Two bindings name this key.
    DuplicateBinding(VirtualKey),
}

/// What a configuration compiles to.
#[derive(Clone, Debug)]
pub struct Compiled {
    /// Messages to send at startup, in this order.
    pub setup: Vec<ProtocolMessage>,
    /// One binding per key.
    pub bindings: Vec<Binding>,
}

/// A per-application behaviour that a window declaration can enable.
#[derive(Clone, Copy, Debug, PartialEq, Eq, Structural)]
pub enum Category {
    BorderOverflow,
    Floating,
    Layered,
    Managed,
    NameChange,
    Tray,
}

/// Whether a flag of a window declaration is set.
pub open spec fn flag(f: Option<bool>) -> bool {
    f == Some(true)
}

/// `m` alone when the flag is set, else nothing.
pub open spec fn when(f: Option<bool>, m: ProtocolMessage) -> Seq<ProtocolMessage> {
    if flag(f) {
        seq![m]
    } else {
        Seq::empty()
    }
}

/// The message that declares `r` to be of category `c`.
pub open spec fn category_message(c: Category, r: Rule) -> ProtocolMessage {
    match c {
        Category::BorderOverflow => ProtocolMessage::IdentifyBorderOverflowApplication(r.identifier, r.name),
        Category::Floating => ProtocolMessage::FloatRule(r.identifier, r.name),
        Category::Layered => ProtocolMessage::IdentifyLayeredApplication(r.identifier, r.name),
        Category::Managed => ProtocolMessage::ManageRule(r.identifier, r.name),
        Category::NameChange => ProtocolMessage::IdentifyObjectNameChangeApplication(r.identifier, r.name),
        Category::Tray => ProtocolMessage::IdentifyTrayApplication(r.identifier, r.name),
    }
}

/// The messages for one rule of a window declaration, in the fixed category
/// order.
pub open spec fn rule_messages(w: Window, r: Rule) -> Seq<ProtocolMessage> {
    when(w.bordered, category_message(Category::BorderOverflow, r))
        + when(w.floating, category_message(Category::Floating, r))
        + when(w.layered, category_message(Category::Layered, r))
        + when(w.managed, category_message(Category::Managed, r))
        + when(w.name_change, category_message(Category::NameChange, r))
        + when(w.tray, category_message(Category::Tray, r))
}

/// The messages for the given rules of a window declaration, rule by rule.
pub open spec fn rules_messages(w: Window, rules: Seq<Rule>) -> Seq<ProtocolMessage>
    decreases rules.len(),
{
    if rules.len() == 0 {
        Seq::empty()
    } else {
        rules_messages(w, rules.drop_last()) + rule_messages(w, rules.last())
    }
}

/// The messages for the given window declarations, window by window.
pub open spec fn windows_messages(ws: Seq<Window>) -> Seq<ProtocolMessage>
    decreases ws.len(),
{
    if ws.len() == 0 {
        Seq::empty()
    } else {
        windows_messages(ws.drop_last()) + rules_messages(ws.last(), ws.last().rules@)
    }
}

/// The padding messages: container padding, then workspace padding, each
/// when configured.
pub open spec fn padding_messages(cfg: Konfig) -> Seq<ProtocolMessage> {
    (match cfg.container_padding {
        Some(p) => seq![ProtocolMessage::ContainerPadding(p.monitor, p.workspace, p.padding)],
        None => Seq::empty(),
    }) + (match cfg.workspace_padding {
        Some(p) => seq![ProtocolMessage::WorkspacePadding(p.monitor, p.workspace, p.padding)],
        None => Seq::empty(),
    })
}

/// The setup messages of a configuration: the rules' messages, the padding
/// messages, then the default commands.
pub open spec fn setup_of(cfg: Konfig) -> Seq<ProtocolMessage> {
    windows_messages(cfg.windows@) + padding_messages(cfg) + cfg.default@
}

/// The first binding, in declaration order, whose key an earlier binding
/// already named.
pub open spec fn first_duplicate(keys: Seq<Binding>) -> Option<VirtualKey>
    decreases keys.len(),
{
    if keys.len() == 0 {
        None
    } else {
        match first_duplicate(keys.drop_last()) {
            Some(k) => Some(k),
            None => if exists|i: int| 0 <= i < keys.len() - 1 && keys[i].key == keys.last().key {
                Some(keys.last().key)
            } else {
                None
            },
        }
    }
}

fn is_set(f: Option<bool>) -> (r: bool)
    ensures
        r == flag(f),
{
    match f {
        Some(true) => true,
        _ => false,
    }
}

/// Appends `m` when the flag is set.
fn push_when(setup: &mut Vec<ProtocolMessage>, f: Option<bool>, m: ProtocolMessage)
    ensures
        final(setup)@ == old(setup)@ + when(f, m),
{
    if is_set(f) {
        setup.push(m);
    }
    assert(final(setup)@ =~= old(setup)@ + when(f, m));
}

/// Appends the messages for one rule of a window declaration.
fn push_rule_messages(setup: &mut Vec<ProtocolMessage>, w: &Window, r: &Rule)
    ensures
        final(setup)@ == old(setup)@ + rule_messages(*w, *r),
{
    let k = r.identifier;
    push_when(setup, w.bordered, ProtocolMessage::IdentifyBorderOverflowApplication(k, r.name.clone()));
    push_when(setup, w.floating, ProtocolMessage::FloatRule(k, r.name.clone()));
    push_when(setup, w.layered, ProtocolMessage::IdentifyLayeredApplication(k, r.name.clone()));
    push_when(setup, w.managed, ProtocolMessage::ManageRule(k, r.name.clone()));
    push_when(setup, w.name_change, ProtocolMessage::IdentifyObjectNameChangeApplication(k, r.name.clone()));
    push_when(setup, w.tray, ProtocolMessage::IdentifyTrayApplication(k, r.name.clone()));
    assert(final(setup)@ =~= old(setup)@ + rule_messages(*w, *r));
}

/// The setup messages of a configuration, in order.
pub fn setup_messages(cfg: &Konfig) -> (r: Vec<ProtocolMessage>)
    ensures
        r@ == setup_of(*cfg),
{
    let mut setup: Vec<ProtocolMessage> = Vec::new();
    let mut wi: usize = 0;
    while wi < cfg.windows.len()
        invariant
            wi <= cfg.windows@.len(),
            setup@ == windows_messages(cfg.windows@.subrange(0, wi as int)),
        decreases cfg.windows@.len() - wi,
    {
        let w = &cfg.windows[wi];
        let ghost before = setup@;
        let mut ri: usize = 0;
        while ri < w.rules.len()
            invariant
                ri <= w.rules@.len(),
                setup@ == before + rules_messages(*w, w.rules@.subrange(0, ri as int)),
            decreases w.rules@.len() - ri,
        {
            push_rule_messages(&mut setup, w, &w.rules[ri]);
            assert(w.rules@.subrange(0, ri + 1).drop_last() =~= w.rules@.subrange(0, ri as int));
            assert(setup@ =~= before + rules_messages(*w, w.rules@.subrange(0, ri + 1)));
            ri = ri + 1;
        }
        assert(w.rules@.subrange(0, ri as int) =~= w.rules@);
        assert(cfg.windows@.subrange(0, wi + 1).drop_last() =~= cfg.windows@.subrange(0, wi as int));
        assert(setup@ =~= windows_messages(cfg.windows@.subrange(0, wi + 1)));
        wi = wi + 1;
    }
    assert(cfg.windows@.subrange(0, wi as int) =~= cfg.windows@);
    let ghost rules_part = setup@;
    if let Some(p) = &cfg.container_padding {
        setup.push(ProtocolMessage::ContainerPadding(p.monitor, p.workspace, p.padding));
    }
    if let Some(p) = &cfg.workspace_padding {
        setup.push(ProtocolMessage::WorkspacePadding(p.monitor, p.workspace, p.padding));
    }
    assert(setup@ =~= rules_part + padding_messages(*cfg));
    let ghost fixed_part = setup@;
    let mut di: usize = 0;
    while di < cfg.default.len()
        invariant
            di <= cfg.default@.len(),
            setup@ == fixed_part + cfg.default@.subrange(0, di as int),
        decreases cfg.default@.len() - di,
    {
        setup.push(cfg.default[di].duplicate());
        assert(setup@ =~= fixed_part + cfg.default@.subrange(0, di + 1));
        di = di + 1;
    }
    assert(cfg.default@.subrange(0, di as int) =~= cfg.default@);
    setup
}

/// The first binding whose key an earlier binding already named, if any.
pub fn find_duplicate(keys: &Vec<Binding>) -> (r: Option<VirtualKey>)
    ensures
        r == first_duplicate(keys@),
{
    let mut j: usize = 0;
    while j < keys.len()
        invariant
            j <= keys@.len(),
            first_duplicate(keys@.subrange(0, j as int)) is None,
        decreases keys@.len() - j,
    {
        let ghost prefix = keys@.subrange(0, j + 1);
        assert(prefix.drop_last() =~= keys@.subrange(0, j as int));
        let mut i: usize = 0;
        while i < j
            invariant
                i <= j < keys@.len(),
                prefix == keys@.subrange(0, j + 1),
                first_duplicate(prefix.drop_last()) is None,
                forall|h: int| 0 <= h < i ==> keys@[h].key != keys@[j as int].key,
            decreases j - i,
        {
            if keys[i].key == keys[j].key {
                proof {
                    assert(prefix[i as int].key == prefix.last().key);
                    lemma_duplicate_persists(keys@, j as int + 1);
                }
                return Some(keys[j].key);
            }
            i = i + 1;
        }
        assert(forall|h: int| 0 <= h < prefix.len() - 1 ==> prefix[h].key != prefix.last().key);
        j = j + 1;
    }
    assert(keys@.subrange(0, j as int) =~= keys@);
    None
}

/// Once a prefix of the bindings holds a duplicate, so do all longer ones,
/// and it stays the first.
proof fn lemma_duplicate_persists(keys: Seq<Binding>, n: int)
    requires
        0 <= n <= keys.len(),
        first_duplicate(keys.subrange(0, n)) is Some,
    ensures
        first_duplicate(keys) == first_duplicate(keys.subrange(0, n)),
    decreases keys.len() - n,
{
    if n < keys.len() {
        assert(keys.subrange(0, n + 1).drop_last() =~= keys.subrange(0, n));
        lemma_duplicate_persists(keys, n + 1);
    } else {
        assert(keys.subrange(0, n) =~= keys);
    }
}

/// Compiles a configuration into its setup messages and its bindings. Fails,
/// before anything is registered or sent, when two bindings name one key.
pub fn compile(cfg: &Konfig) -> (r: Result<Compiled, ConfigError>)
    ensures
        match r {
            Ok(c) => first_duplicate(cfg.keys@) is None && c.setup@ == setup_of(*cfg) && c.bindings@
                == cfg.keys@,
            Err(ConfigError::DuplicateBinding(k)) => first_duplicate(cfg.keys@) == Some(k),
        },
{
    if let Some(k) = find_duplicate(&cfg.keys) {
        return Err(ConfigError::DuplicateBinding(k));
    }
    let mut bindings: Vec<Binding> = Vec::new();
    let mut i: usize = 0;
    while i < cfg.keys.len()
        invariant
            i <= cfg.keys@.len(),
            bindings@ == cfg.keys@.subrange(0, i as int),
        decreases cfg.keys@.len() - i,
    {
        bindings.push(cfg.keys[i]);
        assert(bindings@ =~= cfg.keys@.subrange(0, i + 1));
        i = i + 1;
    }
    assert(cfg.keys@.subrange(0, i as int) =~= cfg.keys@);
    Ok(Compiled { setup: setup_messages(cfg), bindings })
}

/// `c` alone when the flag is set, else nothing.
pub open spec fn category_when(f: Option<bool>, c: Category) -> Seq<Category> {
    if flag(f) {
        seq![c]
    } else {
        Seq::empty()
    }
}

/// The categories that a window declaration enables, in the fixed order.
pub open spec fn enabled_categories(w: Window) -> Seq<Category> {
    category_when(w.bordered, Category::BorderOverflow) + category_when(w.floating, Category::Floating)
        + category_when(w.layered, Category::Layered) + category_when(w.managed, Category::Managed)
        + category_when(w.name_change, Category::NameChange) + category_when(w.tray, Category::Tray)
}

/// Each of the categories paired with one rule.
pub open spec fn pairs_with(r: Rule, cats: Seq<Category>) -> Seq<(Rule, Category)> {
    cats.map_values(|c: Category| (r, c))
}

/// The (rule, enabled category) pairs of the given rules of a window
/// declaration, in declaration order.
pub open spec fn rule_category_pairs(w: Window, rules: Seq<Rule>) -> Seq<(Rule, Category)>
    decreases rules.len(),
{
    if rules.len() == 0 {
        Seq::empty()
    } else {
        rule_category_pairs(w, rules.drop_last()) + pairs_with(rules.last(), enabled_categories(w))
    }
}

/// The (rule, enabled category) pairs of all window declarations, in
/// declaration order.
pub open spec fn config_pairs(ws: Seq<Window>) -> Seq<(Rule, Category)>
    decreases ws.len(),
{
    if ws.len() == 0 {
        Seq::empty()
    } else {
        config_pairs(ws.drop_last()) + rule_category_pairs(ws.last(), ws.last().rules@)
    }
}

/// The message for each (rule, category) pair.
pub open spec fn pair_messages(ps: Seq<(Rule, Category)>) -> Seq<ProtocolMessage> {
    ps.map_values(|p: (Rule, Category)| category_message(p.1, p.0))
}

proof fn lemma_pairs_with_concat(r: Rule, a: Seq<Category>, b: Seq<Category>)
    ensures
        pairs_with(r, a + b) == pairs_with(r, a) + pairs_with(r, b),
{
    assert(pairs_with(r, a + b) =~= pairs_with(r, a) + pairs_with(r, b));
}

proof fn lemma_pair_messages_concat(a: Seq<(Rule, Category)>, b: Seq<(Rule, Category)>)
    ensures
        pair_messages(a + b) == pair_messages(a) + pair_messages(b),
{
    assert(pair_messages(a + b) =~= pair_messages(a) + pair_messages(b));
}

proof fn lemma_category_when(r: Rule, f: Option<bool>, c: Category)
    ensures
        pair_messages(pairs_with(r, category_when(f, c))) == when(f, category_message(c, r)),
{
    assert(pair_messages(pairs_with(r, category_when(f, c))) =~= when(f, category_message(c, r)));
}

proof fn lemma_rule_pairs(w: Window, r: Rule)
    ensures
        pair_messages(pairs_with(r, enabled_categories(w))) == rule_messages(w, r),
{
    let b = category_when(w.bordered, Category::BorderOverflow);
    let f = category_when(w.floating, Category::Floating);
    let l = category_when(w.layered, Category::Layered);
    let m = category_when(w.managed, Category::Managed);
    let n = category_when(w.name_change, Category::NameChange);
    let t = category_when(w.tray, Category::Tray);
    lemma_category_when(r, w.bordered, Category::BorderOverflow);
    lemma_category_when(r, w.floating, Category::Floating);
    lemma_category_when(r, w.layered, Category::Layered);
    lemma_category_when(r, w.managed, Category::Managed);
    lemma_category_when(r, w.name_change, Category::NameChange);
    lemma_category_when(r, w.tray, Category::Tray);
    lemma_pairs_with_concat(r, b, f);
    lemma_pairs_with_concat(r, b + f, l);
    lemma_pairs_with_concat(r, b + f + l, m);
    lemma_pairs_with_concat(r, b + f + l + m, n);
    lemma_pairs_with_concat(r, b + f + l + m + n, t);
    lemma_pair_messages_concat(pairs_with(r, b), pairs_with(r, f));
    lemma_pair_messages_concat(pairs_with(r, b + f), pairs_with(r, l));
    lemma_pair_messages_concat(pairs_with(r, b + f + l), pairs_with(r, m));
    lemma_pair_messages_concat(pairs_with(r, b + f + l + m), pairs_with(r, n));
    lemma_pair_messages_concat(pairs_with(r, b + f + l + m + n), pairs_with(r, t));
}

proof fn lemma_rules_pairs(w: Window, rules: Seq<Rule>)
    ensures
        pair_messages(rule_category_pairs(w, rules)) == rules_messages(w, rules),
    decreases rules.len(),
{
    if rules.len() == 0 {
        assert(pair_messages(rule_category_pairs(w, rules)) =~= Seq::empty());
    } else {
        lemma_rules_pairs(w, rules.drop_last());
        lemma_rule_pairs(w, rules.last());
        lemma_pair_messages_concat(
            rule_category_pairs(w, rules.drop_last()),
            pairs_with(rules.last(), enabled_categories(w)),
        );
    }
}

proof fn lemma_windows_pairs(ws: Seq<Window>)
    ensures
        pair_messages(config_pairs(ws)) == windows_messages(ws),
    decreases ws.len(),
{
    if ws.len() == 0 {
        assert(pair_messages(config_pairs(ws)) =~= Seq::empty());
    } else {
        lemma_windows_pairs(ws.drop_last());
        lemma_rules_pairs(ws.last(), ws.last().rules@);
        lemma_pair_messages_concat(
            config_pairs(ws.drop_last()),
            rule_category_pairs(ws.last(), ws.last().rules@),
        );
    }
}

/// The setup messages begin with exactly one message per (rule, enabled
/// category) pair, in declaration order (window by window, rule by rule,
/// category by category), followed by the padding messages and then the
/// default commands.
pub proof fn lemma_one_message_per_rule_category(cfg: Konfig)
    ensures
        setup_of(cfg) == pair_messages(config_pairs(cfg.windows@)) + padding_messages(cfg) + cfg.default@,
        pair_messages(config_pairs(cfg.windows@)).len() == config_pairs(cfg.windows@).len(),
        forall|i: int|
            0 <= i < config_pairs(cfg.windows@).len() ==> setup_of(cfg)[i] == category_message(
                #[trigger] config_pairs(cfg.windows@)[i].1,
                config_pairs(cfg.windows@)[i].0,
            ),
{
    lemma_windows_pairs(cfg.windows@);
}

/// A configuration compiles exactly when no two of its bindings name the
/// same key.
pub proof fn lemma_compiles_iff_keys_unique(keys: Seq<Binding>)
    ensures
        first_duplicate(keys) is None <==> forall|i: int, j: int|
            0 <= i < j < keys.len() ==> #[trigger] keys[i].key != #[trigger] keys[j].key,
    decreases keys.len(),
{
    if keys.len() > 0 {
        let init = keys.drop_last();
        lemma_compiles_iff_keys_unique(init);
        if first_duplicate(keys) is None {
            assert forall|i: int, j: int| 0 <= i < j < keys.len() implies keys[i].key != keys[j].key by {
                if j < keys.len() - 1 {
                    assert(init[i] == keys[i] && init[j] == keys[j]);
                }
            }
        } else if first_duplicate(init) is Some {
            let (i, j) = choose|i: int, j: int| 0 <= i < j < init.len() && init[i].key == init[j].key;
            assert(keys[i] == init[i] && keys[j] == init[j]);
        }
    }
}

} // verus!

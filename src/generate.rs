//! Generation of this daemon's window declarations from a list of
//! application descriptions in the window manager's own dialect.
use vstd::prelude::*;
use crate::message::{identifier_name, ApplicationIdentifier};

verus! {

/// An application named by kind and identifier.
#[derive(Clone, Debug)]
pub struct IdWithIdentifier {
    pub kind: ApplicationIdentifier,
    pub id: String,
}

/// An application named by kind and identifier, with an optional remark.
#[derive(Clone, Debug)]
pub struct IdWithIdentifierAndComment {
    pub kind: ApplicationIdentifier,
    pub id: String,
    pub comment: Option<String>,
}

/// A behaviour that an application description asks for.
#[derive(Clone, Copy, Debug, PartialEq, Eq, Structural)]
pub enum ApplicationOptions {
    ObjectNameChange,
    Layered,
    BorderOverflow,
    TrayAndMultiWindow,
    Force,
}

/// The description of one application.
#[derive(Clone, Debug)]
pub struct ApplicationConfiguration {
    pub name: String,
    pub identifier: IdWithIdentifier,
    pub options: Option<Vec<ApplicationOptions>>,
    pub float_identifiers: Option<Vec<IdWithIdentifierAndComment>>,
}

/// The text of each line.
pub open spec fn views(lines: Seq<String>) -> Seq<Seq<char>> {
    lines.map_values(|s: String| s@)
}

/// The lines at the top of a generated file.
pub open spec fn header_lines() -> Seq<Seq<char>> {
    seq![
        "# Generated by komorebik.exe"@,
        "# To use this file, copy everything to the bottom of your existing komorebik config file"@,
        Seq::empty(),
    ]
}

/// The lines that one option adds to a window declaration.
pub open spec fn option_lines(o: ApplicationOptions) -> Seq<Seq<char>> {
    match o {
        ApplicationOptions::ObjectNameChange => seq!["name_change = true"@],
        ApplicationOptions::Layered => seq!["layered = true"@],
        ApplicationOptions::BorderOverflow => seq!["bordered = true"@],
        ApplicationOptions::TrayAndMultiWindow => seq![
            "# If you have disabled minimize/close to tray for this application, you can delete/comment out the next line"@,
            "tray = true"@,
        ],
        ApplicationOptions::Force => seq!["managed = true"@],
    }
}

/// The lines of the given options, option by option.
pub open spec fn options_lines(opts: Seq<ApplicationOptions>) -> Seq<Seq<char>>
    decreases opts.len(),
{
    if opts.len() == 0 {
        Seq::empty()
    } else {
        options_lines(opts.drop_last()) + option_lines(opts.last())
    }
}

/// The `type` line of a rule.
pub open spec fn type_line(kind: ApplicationIdentifier) -> Seq<char> {
    "type = \""@ + identifier_name(kind) + "\""@
}

/// The `name` line of a rule.
pub open spec fn name_line(id: Seq<char>) -> Seq<char> {
    "name = \""@ + id + "\""@
}

/// A rule naming one application.
pub open spec fn rule_lines(kind: ApplicationIdentifier, id: Seq<char>) -> Seq<Seq<char>> {
    seq!["[[window.rule]]"@, type_line(kind), name_line(id)]
}

/// Whether a floating identifier names the application itself.
pub open spec fn names_app(f: IdWithIdentifierAndComment, kind: ApplicationIdentifier, id: Seq<char>) -> bool {
    f.id@ == id && f.kind == kind
}

/// A window declaration of its own that floats the application `f` names.
pub open spec fn float_window_lines(f: IdWithIdentifierAndComment) -> Seq<Seq<char>> {
    seq![Seq::empty()] + (match f.comment {
        Some(c) => seq!["# "@ + c@],
        None => Seq::empty(),
    }) + seq!["[[window]]"@, "floating = true"@] + rule_lines(f.kind, f.id@)
}

/// The `floating` lines that floating identifiers naming the application
/// itself add to its own declaration.
pub open spec fn own_float_lines(
    fs: Seq<IdWithIdentifierAndComment>,
    kind: ApplicationIdentifier,
    id: Seq<char>,
) -> Seq<Seq<char>>
    decreases fs.len(),
{
    if fs.len() == 0 {
        Seq::empty()
    } else {
        own_float_lines(fs.drop_last(), kind, id) + if names_app(fs.last(), kind, id) {
            seq!["floating = true"@]
        } else {
            Seq::empty()
        }
    }
}

/// The separate window declarations for floating identifiers that name other
/// applications.
pub open spec fn other_float_lines(
    fs: Seq<IdWithIdentifierAndComment>,
    kind: ApplicationIdentifier,
    id: Seq<char>,
) -> Seq<Seq<char>>
    decreases fs.len(),
{
    if fs.len() == 0 {
        Seq::empty()
    } else {
        other_float_lines(fs.drop_last(), kind, id) + if names_app(fs.last(), kind, id) {
            Seq::empty()
        } else {
            float_window_lines(fs.last())
        }
    }
}

/// The options of an application description; none when absent.
pub open spec fn options_of(app: ApplicationConfiguration) -> Seq<ApplicationOptions> {
    match app.options {
        Some(v) => v@,
        None => Seq::empty(),
    }
}

/// The floating identifiers of an application description; none when absent.
pub open spec fn floats_of(app: ApplicationConfiguration) -> Seq<IdWithIdentifierAndComment> {
    match app.float_identifiers {
        Some(v) => v@,
        None => Seq::empty(),
    }
}

/// The lines for one application: its window declaration with its options,
/// its own floating flag and its rule, then a declaration for each other
/// application it floats, then a blank line.
pub open spec fn app_lines(app: ApplicationConfiguration) -> Seq<Seq<char>> {
    let kind = app.identifier.kind;
    let id = app.identifier.id@;
    seq!["[[window]]"@] + options_lines(options_of(app)) + own_float_lines(floats_of(app), kind, id)
        + rule_lines(kind, id) + other_float_lines(floats_of(app), kind, id) + seq![Seq::empty()]
}

/// The lines for the given applications, one after the other.
pub open spec fn apps_lines(apps: Seq<ApplicationConfiguration>) -> Seq<Seq<char>>
    decreases apps.len(),
{
    if apps.len() == 0 {
        Seq::empty()
    } else {
        apps_lines(apps.drop_last()) + app_lines(apps.last())
    }
}

/// The lines of a generated file.
pub open spec fn generated_lines(apps: Seq<ApplicationConfiguration>) -> Seq<Seq<char>> {
    header_lines() + apps_lines(apps)
}

/// Appends one line.
fn push_line(lines: &mut Vec<String>, line: String)
    ensures
        views(final(lines)@) == views(old(lines)@).push(line@),
{
    lines.push(line);
    assert(views(final(lines)@) =~= views(old(lines)@).push(line@));
}

/// Appends the given lines.
fn push_lines(lines: &mut Vec<String>, more: Vec<String>)
    ensures
        views(final(lines)@) == views(old(lines)@) + views(more@),
{
    let mut i: usize = 0;
    while i < more.len()
        invariant
            i <= more@.len(),
            views(lines@) == views(old(lines)@) + views(more@.subrange(0, i as int)),
        decreases more@.len() - i,
    {
        push_line(lines, more[i].clone());
        assert(views(more@.subrange(0, i + 1)) =~= views(more@.subrange(0, i as int)).push(more@[i as int]@));
        i = i + 1;
    }
    assert(more@.subrange(0, i as int) =~= more@);
}

/// `"<head><middle>\""`
fn quoted_line(head: &str, middle: &str) -> (r: String)
    ensures
        r@ == head@ + middle@ + "\""@,
{
    let mut s = String::from_str(head);
    s.append(middle);
    s.append("\"");
    s
}

/// Appends a rule naming one application.
fn push_rule(lines: &mut Vec<String>, kind: ApplicationIdentifier, id: &String)
    ensures
        views(final(lines)@) == views(old(lines)@) + rule_lines(kind, id@),
{
    push_line(lines, String::from_str("[[window.rule]]"));
    push_line(lines, quoted_line("type = \"", kind.name()));
    push_line(lines, quoted_line("name = \"", id.as_str()));
    assert(views(final(lines)@) =~= views(old(lines)@) + rule_lines(kind, id@));
}

/// Appends the lines of one option.
fn push_option(lines: &mut Vec<String>, o: ApplicationOptions)
    ensures
        views(final(lines)@) == views(old(lines)@) + option_lines(o),
{
    match o {
        ApplicationOptions::ObjectNameChange => push_line(lines, String::from_str("name_change = true")),
        ApplicationOptions::Layered => push_line(lines, String::from_str("layered = true")),
        ApplicationOptions::BorderOverflow => push_line(lines, String::from_str("bordered = true")),
        ApplicationOptions::TrayAndMultiWindow => {
            push_line(
                lines,
                String::from_str(
                    "# If you have disabled minimize/close to tray for this application, you can delete/comment out the next line",
                ),
            );
            push_line(lines, String::from_str("tray = true"));
        },
        ApplicationOptions::Force => push_line(lines, String::from_str("managed = true")),
    }
    assert(views(final(lines)@) =~= views(old(lines)@) + option_lines(o));
}

/// Appends the lines of the given options.
fn push_options(lines: &mut Vec<String>, opts: &Vec<ApplicationOptions>)
    ensures
        views(final(lines)@) == views(old(lines)@) + options_lines(opts@),
{
    let mut i: usize = 0;
    while i < opts.len()
        invariant
            i <= opts@.len(),
            views(lines@) == views(old(lines)@) + options_lines(opts@.subrange(0, i as int)),
        decreases opts@.len() - i,
    {
        push_option(lines, opts[i]);
        assert(opts@.subrange(0, i + 1).drop_last() =~= opts@.subrange(0, i as int));
        assert(views(lines@) =~= views(old(lines)@) + options_lines(opts@.subrange(0, i + 1)));
        i = i + 1;
    }
    assert(opts@.subrange(0, i as int) =~= opts@);
}

/// Appends a window declaration of its own that floats the application `f`
/// names.
fn push_float_window(lines: &mut Vec<String>, f: &IdWithIdentifierAndComment)
    ensures
        views(final(lines)@) == views(old(lines)@) + float_window_lines(*f),
{
    push_line(lines, String::new());
    if let Some(c) = &f.comment {
        let mut s = String::from_str("# ");
        s.append(c.as_str());
        push_line(lines, s);
    }
    push_line(lines, String::from_str("[[window]]"));
    push_line(lines, String::from_str("floating = true"));
    push_rule(lines, f.kind, &f.id);
    assert(views(final(lines)@) =~= views(old(lines)@) + float_window_lines(*f));
}

/// Appends the lines for one application.
fn push_app(lines: &mut Vec<String>, app: &ApplicationConfiguration)
    ensures
        views(final(lines)@) == views(old(lines)@) + app_lines(*app),
{
    let kind = app.identifier.kind;
    let id = &app.identifier.id;
    push_line(lines, String::from_str("[[window]]"));
    if let Some(opts) = &app.options {
        push_options(lines, opts);
    } else {
        assert(options_lines(options_of(*app)) =~= Seq::empty());
    }
    let ghost with_options = views(lines@);
    let mut others: Vec<String> = Vec::new();
    if let Some(fs) = &app.float_identifiers {
        let mut i: usize = 0;
        while i < fs.len()
            invariant
                i <= fs@.len(),
                views(lines@) == with_options + own_float_lines(fs@.subrange(0, i as int), kind, id@),
                views(others@) == other_float_lines(fs@.subrange(0, i as int), kind, id@),
            decreases fs@.len() - i,
        {
            let f = &fs[i];
            assert(fs@.subrange(0, i + 1).drop_last() =~= fs@.subrange(0, i as int));
            if f.id == *id && f.kind == kind {
                push_line(lines, String::from_str("floating = true"));
                assert(views(others@) =~= other_float_lines(fs@.subrange(0, i + 1), kind, id@));
            } else {
                push_float_window(&mut others, f);
            }
            assert(views(lines@) =~= with_options + own_float_lines(fs@.subrange(0, i + 1), kind, id@));
            i = i + 1;
        }
        assert(fs@.subrange(0, i as int) =~= fs@);
    } else {
        assert(own_float_lines(floats_of(*app), kind, id@) =~= Seq::empty());
        assert(other_float_lines(floats_of(*app), kind, id@) =~= Seq::empty());
        assert(views(lines@) =~= with_options + own_float_lines(floats_of(*app), kind, id@));
    }
    push_rule(lines, kind, id);
    push_lines(lines, others);
    push_line(lines, String::new());
    assert(views(final(lines)@) =~= views(old(lines)@) + app_lines(*app));
}

/// The lines of a file of window declarations for the given application
/// descriptions: a header, then each application's lines in order.
pub fn gen_app_specific_lines(apps: &Vec<ApplicationConfiguration>) -> (r: Vec<String>)
    ensures
        views(r@) == generated_lines(apps@),
{
    let mut lines: Vec<String> = Vec::new();
    push_line(&mut lines, String::from_str("# Generated by komorebik.exe"));
    push_line(
        &mut lines,
        String::from_str(
            "# To use this file, copy everything to the bottom of your existing komorebik config file",
        ),
    );
    push_line(&mut lines, String::new());
    assert(views(lines@) =~= header_lines());
    let mut i: usize = 0;
    while i < apps.len()
        invariant
            i <= apps@.len(),
            views(lines@) == header_lines() + apps_lines(apps@.subrange(0, i as int)),
        decreases apps@.len() - i,
    {
        push_app(&mut lines, &apps[i]);
        assert(apps@.subrange(0, i + 1).drop_last() =~= apps@.subrange(0, i as int));
        assert(views(lines@) =~= header_lines() + apps_lines(apps@.subrange(0, i + 1)));
        i = i + 1;
    }
    assert(apps@.subrange(0, i as int) =~= apps@);
    lines
}

} // verus!

//! The AsciiDoc manual page, generated from a description of the command line:
//! the commands, their options and positional arguments, and their subcommands.
use vstd::prelude::*;
use vstd::utf8::encode_utf8;
use crate::report::{lemma_whole, texts};
use crate::text::{owned, spaces, spaces_of, str_eq, to_uppercase, uppercase};

verus! {

// ---------------------------------------------------------------------------
// The description of a command line
// ---------------------------------------------------------------------------

/// An argument of a command, as the manual page reads it.
pub struct ArgInfo {
    /// The argument's identifier.
    pub id: String,
    /// The argument is positional rather than an option.
    pub positional: bool,
    /// The short flag, without the dash.
    pub short: Option<char>,
    /// The long flag, without the dashes.
    pub long: Option<String>,
    /// The help text.
    pub help: Option<String>,
    /// The names of the values the argument takes.
    pub value_names: Vec<String>,
    /// The values the argument may take, where they are fixed.
    pub possible_values: Vec<String>,
    /// The argument must be given.
    pub required: bool,
    /// The default values.
    pub default_values: Vec<String>,
    /// The argument takes a value (its action is not a boolean flag or a count).
    pub takes_value: bool,
}

/// A command, as the manual page reads it.
pub struct CommandInfo {
    pub name: String,
    pub about: Option<String>,
    pub long_about: Option<String>,
    /// The command is hidden from help.
    pub hidden: bool,
    pub args: Vec<ArgInfo>,
    pub subcommands: Vec<CommandInfo>,
}

/// The text, or nothing.
pub open spec fn or_empty(s: Option<String>) -> Seq<char> {
    match s {
        Some(s) => s@,
        None => Seq::empty(),
    }
}

fn text_or_empty(s: &Option<String>) -> (r: &str)
    ensures
        r@ == or_empty(*s),
{
    match s {
        Some(t) => t.as_str(),
        None => {
            proof {
                reveal_strlit("");
            }
            ""
        },
    }
}

/// A subcommand the manual lists: not hidden, and not `help`.
pub open spec fn visible(c: CommandInfo) -> bool {
    !c.hidden && c.name@ != "help"@
}

/// An option the manual lists: not positional, and neither `help` nor `version`.
pub open spec fn is_option(a: ArgInfo) -> bool {
    !a.positional && a.id@ != "help"@ && a.id@ != "version"@
}

fn is_visible(c: &CommandInfo) -> (r: bool)
    ensures
        r == visible(*c),
{
    !c.hidden && !str_eq(c.name.as_str(), "help")
}

fn is_listed_option(a: &ArgInfo) -> (r: bool)
    ensures
        r == is_option(*a),
{
    !a.positional && !str_eq(a.id.as_str(), "help") && !str_eq(a.id.as_str(), "version")
}

/// The name an argument is shown by: its first value name, else its identifier.
pub open spec fn arg_name(a: ArgInfo) -> Seq<char> {
    if a.value_names@.len() > 0 {
        a.value_names@[0]@
    } else {
        a.id@
    }
}

fn arg_display_name(a: &ArgInfo) -> (r: &str)
    ensures
        r@ == arg_name(*a),
{
    if a.value_names.len() > 0 {
        a.value_names[0].as_str()
    } else {
        a.id.as_str()
    }
}

// ---------------------------------------------------------------------------
// Text helpers
// ---------------------------------------------------------------------------

/// The pieces joined with the separator between each two.
pub open spec fn join(parts: Seq<Seq<char>>, sep: Seq<char>) -> Seq<char>
    decreases parts.len(),
{
    if parts.len() == 0 {
        Seq::empty()
    } else if parts.len() == 1 {
        parts[0]
    } else {
        join(parts.drop_last(), sep) + sep + parts.last()
    }
}

/// Joins the strings with the separator between each two.
pub fn join_strings(parts: &Vec<String>, sep: &str) -> (r: String)
    ensures
        r@ == join(texts(parts@), sep@),
{
    let mut r = String::new();
    let mut i: usize = 0;
    while i < parts.len()
        invariant
            i <= parts@.len(),
            r@ == join(texts(parts@.subrange(0, i as int)), sep@),
        decreases parts@.len() - i,
    {
        proof {
            assert(texts(parts@.subrange(0, i + 1)).drop_last() =~= texts(
                parts@.subrange(0, i as int),
            ));
        }
        if i > 0 {
            r.append(sep);
        }
        r.append(parts[i].as_str());
        i = i + 1;
    }
    assert(parts@.subrange(0, parts@.len() as int) =~= parts@);
    r
}

/// The number of bytes of the UTF-8 encoding of a text, as `str::len` gives it.
pub open spec fn byte_len(s: Seq<char>) -> nat {
    (encode_utf8(s).len() as usize) as nat
}

/// The padding after a text of `n` bytes up to `target`: two spaces where the
/// text is already that long.
pub open spec fn padding(n: nat, target: nat) -> Seq<char> {
    if n >= target {
        "  "@
    } else {
        spaces_of((target - n) as nat)
    }
}

/// Returns enough spaces to pad `text` out to `target_width` bytes, or two
/// spaces where it is already that long.
pub fn compute_spacing(text: &str, target_width: usize) -> (r: String)
    ensures
        r@ == padding(byte_len(text@), target_width as nat),
{
    let len = text.len();
    assert(len == byte_len(text@));
    if len >= target_width {
        owned("  ")
    } else {
        spaces(target_width - len)
    }
}

/// The text with each piece that `f` gives for the elements of `s`, in order.
pub open spec fn concat_map<T>(s: Seq<T>, f: spec_fn(T) -> Seq<char>) -> Seq<char>
    decreases s.len(),
{
    if s.len() == 0 {
        Seq::empty()
    } else {
        concat_map(s.drop_last(), f) + f(s.last())
    }
}

proof fn lemma_concat_map_step<T>(s: Seq<T>, i: int, f: spec_fn(T) -> Seq<char>)
    requires
        0 <= i < s.len(),
    ensures
        concat_map(s.subrange(0, i + 1), f) == concat_map(s.subrange(0, i), f) + f(s[i]),
{
    assert(s.subrange(0, i + 1).drop_last() =~= s.subrange(0, i));
}

/// The position of the first line break in `s`, or its length.
pub open spec fn line_break(s: Seq<char>, i: int) -> int
    decreases s.len() - i,
{
    if i >= s.len() {
        s.len() as int
    } else if i >= 0 && s[i] == '\n' {
        i
    } else {
        line_break(s, i + 1)
    }
}

/// A line runs up to the next line break or the end of the text.
pub proof fn lemma_line_break_bounds(s: Seq<char>, i: int)
    requires
        0 <= i <= s.len(),
    ensures
        i <= line_break(s, i) <= s.len(),
        forall|k: int| i <= k < line_break(s, i) ==> s[k] != '\n',
        line_break(s, i) < s.len() ==> s[line_break(s, i)] == '\n',
    decreases s.len() - i,
{
    if i < s.len() && s[i] != '\n' {
        lemma_line_break_bounds(s, i + 1);
    }
}

/// A line without a trailing carriage return.
pub open spec fn strip_cr(l: Seq<char>) -> Seq<char> {
    if l.len() > 0 && l.last() == '\r' {
        l.drop_last()
    } else {
        l
    }
}

/// The lines of `s`, as `str::lines` gives them: split at `\n`, a line ended
/// by `\r\n` without its carriage return, a last line without a line break
/// kept as it stands (a lone `\r` included), and no empty last line after a
/// final line break.
pub open spec fn lines_of(s: Seq<char>) -> Seq<Seq<char>>
    decreases s.len(),
{
    if s.len() == 0 {
        Seq::empty()
    } else {
        let p = line_break(s, 0);
        proof {
            lemma_line_break_bounds(s, 0);
        }
        let rest = if p < s.len() {
            s.subrange(p + 1, s.len() as int)
        } else {
            Seq::empty()
        };
        let line = if p < s.len() {
            strip_cr(s.subrange(0, p))
        } else {
            s.subrange(0, p)
        };
        seq![line] + lines_of(rest)
    }
}

/// The lines of `s`.
pub fn split_lines(s: &str) -> (r: Vec<String>)
    ensures
        texts(r@) == lines_of(s@),
{
    let n = s.unicode_len();
    let mut r: Vec<String> = Vec::new();
    let mut pos: usize = 0;
    assert(s@.subrange(0, n as int) =~= s@);
    assert(texts(r@) + lines_of(s@) =~= lines_of(s@));
    while pos < n
        invariant
            n == s@.len(),
            pos <= n,
            texts(r@) + lines_of(s@.subrange(pos as int, n as int)) == lines_of(s@),
        decreases n - pos,
    {
        let ghost rest = s@.subrange(pos as int, n as int);
        let mut p = pos;
        while p < n && s.get_char(p) != '\n'
            invariant
                n == s@.len(),
                pos <= p <= n,
                forall|k: int| pos <= k < p ==> s@[k] != '\n',
            decreases n - p,
        {
            p = p + 1;
        }
        proof {
            lemma_line_break_bounds(rest, 0);
            let q = line_break(rest, 0);
            assert(q == p - pos) by {
                if q < p - pos {
                    assert(rest[q] == s@[pos + q]);
                }
                if q > p - pos {
                    assert(rest[p - pos] == s@[p as int]);
                }
            }
        }
        let mut end = p;
        if p < n && end > pos && s.get_char(end - 1) == '\r' {
            end = end - 1;
        }
        let line = owned(s.substring_char(pos, end));
        proof {
            let q = p - pos;
            if p < n {
                assert(strip_cr(rest.subrange(0, q)) =~= s@.subrange(pos as int, end as int));
            } else {
                assert(rest.subrange(0, q) =~= s@.subrange(pos as int, end as int));
            }
            let next = if p < n {
                s@.subrange(p + 1, n as int)
            } else {
                Seq::empty()
            };
            assert((if q < rest.len() {
                rest.subrange(q + 1, rest.len() as int)
            } else {
                Seq::<char>::empty()
            }) =~= next);
        }
        let ghost before = texts(r@);
        r.push(line);
        assert(texts(r@) =~= before.push(line@));
        if p < n {
            pos = p + 1;
        } else {
            pos = n;
            assert(s@.subrange(n as int, n as int) =~= Seq::<char>::empty());
        }
        assert(texts(r@) + lines_of(s@.subrange(pos as int, n as int)) =~= lines_of(s@));
    }
    assert(s@.subrange(n as int, n as int) =~= Seq::<char>::empty());
    assert(texts(r@) + Seq::<Seq<char>>::empty() =~= texts(r@));
    r
}

// ---------------------------------------------------------------------------
// Flags and usage
// ---------------------------------------------------------------------------

/// An option's flags: `-s, --long`, `-s` or `--long`, followed by the first
/// value name in uppercase where the option takes a value; nothing where it
/// has no flag.
pub open spec fn flag_text(a: ArgInfo) -> Seq<char> {
    flag_text_with(a, if a.value_names@.len() > 0 {
        uppercase(a.value_names@[0]@)
    } else {
        Seq::empty()
    })
}

/// An option's flags as `flag_text` has them, with `value` standing for the
/// value name in uppercase.
pub open spec fn flag_text_with(a: ArgInfo, value: Seq<char>) -> Seq<char> {
    let base = match (a.short, a.long) {
        (Some(s), Some(l)) => seq!['-', s] + ", --"@ + l@,
        (Some(s), None) => seq!['-', s],
        (None, Some(l)) => "--"@ + l@,
        (None, None) => Seq::empty(),
    };
    if a.short is None && a.long is None {
        Seq::empty()
    } else if a.takes_value && a.value_names@.len() > 0 {
        base + " "@ + value
    } else {
        base
    }
}

/// Formats an option flag string like `-q, --quiet` or `--client-cert VALUE`.
pub fn format_flag(arg: &ArgInfo) -> (r: String)
    ensures
        r@ == flag_text(*arg),
{
    if arg.value_names.len() > 0 {
        let upper = to_uppercase(arg.value_names[0].as_str());
        flag_with_value(arg, upper.as_str())
    } else {
        flag_with_value(arg, "")
    }
}

/// Formats an option's flags with `value` written for its value name.
pub fn flag_with_value(arg: &ArgInfo, value: &str) -> (r: String)
    ensures
        r@ == flag_text_with(*arg, value@),
{
    let mut base = String::new();
    match (&arg.short, &arg.long) {
        (Some(s), Some(l)) => {
            crate::text::push_char(&mut base, '-');
            crate::text::push_char(&mut base, *s);
            base.append(", --");
            base.append(l.as_str());
        },
        (Some(s), None) => {
            crate::text::push_char(&mut base, '-');
            crate::text::push_char(&mut base, *s);
        },
        (None, Some(l)) => {
            base.append("--");
            base.append(l.as_str());
        },
        (None, None) => {
            return String::new();
        },
    }
    if arg.takes_value && arg.value_names.len() > 0 {
        base.append(" ");
        base.append(value);
    }
    assert(base@ =~= flag_text_with(*arg, value@));
    base
}

/// The usage word of a positional argument: its possible values in brackets,
/// else its name in uppercase, bracketed where it is optional.
pub open spec fn positional_usage(a: ArgInfo) -> Seq<char> {
    if a.possible_values@.len() > 0 {
        "["@ + join(texts(a.possible_values@), ", "@) + "]"@
    } else if a.required {
        uppercase(arg_name(a))
    } else {
        "["@ + uppercase(arg_name(a)) + "]"@
    }
}

/// The usage words contributed by each argument.
pub open spec fn usage_words(args: Seq<ArgInfo>) -> Seq<Seq<char>>
    decreases args.len(),
{
    if args.len() == 0 {
        Seq::empty()
    } else {
        usage_words(args.drop_last()) + if args.last().positional {
            seq![positional_usage(args.last())]
        } else {
            Seq::empty()
        }
    }
}

/// The names of the subcommands the manual lists.
pub open spec fn visible_names(subs: Seq<CommandInfo>) -> Seq<Seq<char>>
    decreases subs.len(),
{
    if subs.len() == 0 {
        Seq::empty()
    } else {
        visible_names(subs.drop_last()) + if visible(subs.last()) {
            seq![subs.last().name@]
        } else {
            Seq::empty()
        }
    }
}

/// Some argument is an option the manual lists.
pub open spec fn has_options(args: Seq<ArgInfo>) -> bool {
    exists|j: int| 0 <= j < args.len() && is_option(#[trigger] args[j])
}

/// Some argument is positional.
pub open spec fn has_positionals(args: Seq<ArgInfo>) -> bool {
    exists|j: int| 0 <= j < args.len() && (#[trigger] args[j]).positional
}

/// Some subcommand is one the manual lists.
pub open spec fn has_visible(subs: Seq<CommandInfo>) -> bool {
    exists|j: int| 0 <= j < subs.len() && visible(#[trigger] subs[j])
}

/// The usage line: the full command, `[OPTIONS]` where there are options, a
/// word for each positional argument, and the listed subcommands in brackets.
pub open spec fn usage_text(full_cmd: Seq<char>, cmd: CommandInfo) -> Seq<char> {
    let parts = seq![full_cmd] + (if has_options(cmd.args@) {
        seq!["[OPTIONS]"@]
    } else {
        Seq::empty()
    }) + usage_words(cmd.args@) + (if visible_names(cmd.subcommands@).len() > 0 {
        seq!["["@ + join(visible_names(cmd.subcommands@), ", "@) + "]"@]
    } else {
        Seq::empty()
    });
    join(parts, " "@)
}

fn any_option(args: &Vec<ArgInfo>) -> (r: bool)
    ensures
        r == has_options(args@),
{
    let mut i: usize = 0;
    while i < args.len()
        invariant
            i <= args@.len(),
            forall|j: int| 0 <= j < i ==> !is_option(#[trigger] args@[j]),
        decreases args@.len() - i,
    {
        if is_listed_option(&args[i]) {
            return true;
        }
        i = i + 1;
    }
    false
}

fn any_positional(args: &Vec<ArgInfo>) -> (r: bool)
    ensures
        r == has_positionals(args@),
{
    let mut i: usize = 0;
    while i < args.len()
        invariant
            i <= args@.len(),
            forall|j: int| 0 <= j < i ==> !(#[trigger] args@[j]).positional,
        decreases args@.len() - i,
    {
        if args[i].positional {
            return true;
        }
        i = i + 1;
    }
    false
}

fn any_visible(subs: &Vec<CommandInfo>) -> (r: bool)
    ensures
        r == has_visible(subs@),
{
    let mut i: usize = 0;
    while i < subs.len()
        invariant
            i <= subs@.len(),
            forall|j: int| 0 <= j < i ==> !visible(#[trigger] subs@[j]),
        decreases subs@.len() - i,
    {
        if is_visible(&subs[i]) {
            return true;
        }
        i = i + 1;
    }
    false
}

fn positional_word(a: &ArgInfo) -> (r: String)
    ensures
        r@ == positional_usage(*a),
{
    if a.possible_values.len() > 0 {
        let mut w = owned("[");
        w.append(join_strings(&a.possible_values, ", ").as_str());
        w.append("]");
        w
    } else if a.required {
        to_uppercase(arg_display_name(a))
    } else {
        let mut w = owned("[");
        w.append(to_uppercase(arg_display_name(a)).as_str());
        w.append("]");
        w
    }
}

fn push_text(v: &mut Vec<String>, s: String)
    ensures
        texts(final(v)@) == texts(old(v)@).push(s@),
{
    v.push(s);
    assert(texts(final(v)@) =~= texts(old(v)@).push(s@));
}

fn visible_command_names(subs: &Vec<CommandInfo>) -> (r: Vec<String>)
    ensures
        texts(r@) == visible_names(subs@),
{
    let mut r: Vec<String> = Vec::new();
    let mut i: usize = 0;
    while i < subs.len()
        invariant
            i <= subs@.len(),
            texts(r@) == visible_names(subs@.subrange(0, i as int)),
        decreases subs@.len() - i,
    {
        proof {
            assert(subs@.subrange(0, i + 1).drop_last() =~= subs@.subrange(0, i as int));
        }
        if is_visible(&subs[i]) {
            push_text(&mut r, subs[i].name.clone());
        }
        i = i + 1;
    }
    proof {
        lemma_whole(subs@);
    }
    r
}

/// Builds a usage string like `snphost fetch vek [OPTIONS] [der, pem] PATH [URL]`.
pub fn build_usage(full_cmd: &str, cmd: &CommandInfo) -> (r: String)
    ensures
        r@ == usage_text(full_cmd@, *cmd),
{
    let mut parts: Vec<String> = Vec::new();
    push_text(&mut parts, owned(full_cmd));
    if any_option(&cmd.args) {
        push_text(&mut parts, owned("[OPTIONS]"));
    }
    let ghost head = texts(parts@);
    let mut i: usize = 0;
    while i < cmd.args.len()
        invariant
            i <= cmd.args@.len(),
            texts(parts@) == head + usage_words(cmd.args@.subrange(0, i as int)),
        decreases cmd.args@.len() - i,
    {
        proof {
            assert(cmd.args@.subrange(0, i + 1).drop_last() =~= cmd.args@.subrange(0, i as int));
        }
        if cmd.args[i].positional {
            push_text(&mut parts, positional_word(&cmd.args[i]));
        }
        assert(texts(parts@) =~= head + usage_words(cmd.args@.subrange(0, i + 1)));
        i = i + 1;
    }
    proof {
        lemma_whole(cmd.args@);
    }
    let names = visible_command_names(&cmd.subcommands);
    if names.len() > 0 {
        let mut w = owned("[");
        w.append(join_strings(&names, ", ").as_str());
        w.append("]");
        push_text(&mut parts, w);
    }
    let r = join_strings(&parts, " ");
    proof {
        assert(texts(parts@) =~= seq![full_cmd@] + (if has_options(cmd.args@) {
            seq!["[OPTIONS]"@]
        } else {
            Seq::empty()
        }) + usage_words(cmd.args@) + (if visible_names(cmd.subcommands@).len() > 0 {
            seq!["["@ + join(visible_names(cmd.subcommands@), ", "@) + "]"@]
        } else {
            Seq::empty()
        }));
    }
    r
}

// ---------------------------------------------------------------------------
// The blocks of a command
// ---------------------------------------------------------------------------

/// A line of a description: indented by eight spaces, or left empty.
pub open spec fn desc_line(l: Seq<char>) -> Seq<char> {
    if l.len() == 0 {
        "\n"@
    } else {
        "        "@ + l + "\n"@
    }
}

/// `desc_line` as a function value.
pub open spec fn desc_line_each() -> spec_fn(Seq<char>) -> Seq<char> {
    |l: Seq<char>| desc_line(l)
}

/// The summary line of a listed subcommand: its full command, padded to forty
/// bytes, and what it is about.
pub open spec fn sub_summary_each(full: Seq<char>) -> spec_fn(CommandInfo) -> Seq<char> {
    |sc: CommandInfo|
        if visible(sc) {
            let c = full + " "@ + sc.name@;
            "        "@ + c + padding(byte_len(c), 40) + or_empty(sc.about) + "\n"@
        } else {
            Seq::empty()
        }
}

/// The description of a positional argument with a help text or fixed values:
/// its name in uppercase (bracketed where optional), its help, its possible
/// values, and whether it is optional.
pub open spec fn positional_line(a: ArgInfo) -> Seq<char> {
    let help = or_empty(a.help);
    if a.positional && (help.len() != 0 || a.possible_values@.len() != 0) {
        let name = uppercase(arg_name(a));
        let label = if a.required {
            name
        } else {
            "["@ + name + "]"@
        };
        let vals = join(texts(a.possible_values@), ", "@);
        let d1 = if a.possible_values@.len() != 0 {
            if help.len() == 0 {
                "Possible values: "@ + vals
            } else {
                help + " ("@ + vals + ")"@
            }
        } else {
            help
        };
        let d2 = if !a.required {
            d1 + " (optional)"@
        } else {
            d1
        };
        "        "@ + label + ":  "@ + d2 + "\n"@
    } else {
        Seq::empty()
    }
}

/// `positional_line` as a function value.
pub open spec fn positional_each() -> spec_fn(ArgInfo) -> Seq<char> {
    |a: ArgInfo| positional_line(a)
}

/// The first default value of an option, as ` [default: ...]`, or nothing.
pub open spec fn default_suffix(a: ArgInfo) -> Seq<char> {
    if a.default_values@.len() > 0 {
        " [default: "@ + a.default_values@[0]@ + "]"@
    } else {
        Seq::empty()
    }
}

/// The line of a listed option: its flags padded to twenty-four bytes, its
/// help, and its default.
pub open spec fn option_line(a: ArgInfo) -> Seq<char> {
    if is_option(a) {
        let f = flag_text(a);
        "        "@ + f + padding(byte_len(f), 24) + or_empty(a.help) + default_suffix(a) + "\n"@
    } else {
        Seq::empty()
    }
}

/// `option_line` as a function value.
pub open spec fn option_each() -> spec_fn(ArgInfo) -> Seq<char> {
    |a: ArgInfo| option_line(a)
}

/// A subcommand that has something of its own to document: a positional
/// argument, a listed option, or a listed subcommand.
pub open spec fn nontrivial(c: CommandInfo) -> bool {
    has_positionals(c.args@) || has_options(c.args@) || has_visible(c.subcommands@)
}

/// The description of a command: its long description, else its short one.
pub open spec fn description(cmd: CommandInfo) -> Seq<char> {
    match cmd.long_about {
        Some(l) => l@,
        None => or_empty(cmd.about),
    }
}

/// The description block: each line indented, then an empty line; nothing
/// without a description.
pub open spec fn desc_block(cmd: CommandInfo) -> Seq<char> {
    let desc = description(cmd);
    if desc.len() != 0 {
        concat_map(lines_of(desc), desc_line_each()) + "\n"@
    } else {
        Seq::empty()
    }
}

/// The summary of the listed subcommands, then an empty line; nothing where
/// none is listed.
pub open spec fn summary_block(full: Seq<char>, cmd: CommandInfo) -> Seq<char> {
    if has_visible(cmd.subcommands@) {
        concat_map(cmd.subcommands@, sub_summary_each(full)) + "\n"@
    } else {
        Seq::empty()
    }
}

/// The descriptions of the positional arguments, then an empty line; nothing
/// without positional arguments.
pub open spec fn positional_block(cmd: CommandInfo) -> Seq<char> {
    if has_positionals(cmd.args@) {
        concat_map(cmd.args@, positional_each()) + "\n"@
    } else {
        Seq::empty()
    }
}

/// The options, with the help flag last, then an empty line.
pub open spec fn options_block(cmd: CommandInfo) -> Seq<char> {
    "  options:\n"@ + concat_map(cmd.args@, option_each())
        + "        -h, --help      Show a help message.\n"@ + "\n"@
}

/// The part of a command's block before its subcommands' blocks: a header
/// with the full command, the usage line, the description line by line, the
/// summary of its listed subcommands, the descriptions of its positional
/// arguments, and its options.
pub open spec fn command_head(full: Seq<char>, cmd: CommandInfo) -> Seq<char> {
    "*"@ + full + "*::\n"@ + "\tusage: "@ + usage_text(full, cmd) + "\n"@ + "\n"@ + desc_block(cmd)
        + summary_block(full, cmd) + positional_block(cmd) + options_block(cmd)
}

/// The full command of a (sub)command: the program, then the path of
/// command names joined by spaces.
pub open spec fn full_command(root: Seq<char>, path: Seq<Seq<char>>) -> Seq<char> {
    root + " "@ + join(path, " "@)
}

/// The block of a command, under the program `root` and the path of its
/// parent commands: the head of the block, and then the blocks of those
/// listed subcommands that have something of their own to document.
pub open spec fn command_doc(root: Seq<char>, cmd: CommandInfo, parent: Seq<Seq<char>>) -> Seq<char>
    decreases cmd, cmd.subcommands@.len() + 1,
{
    let path = parent.push(cmd.name@);
    command_head(full_command(root, path), cmd) + subs_doc(root, cmd, path, 0)
}

/// The blocks of the subcommands of `cmd` from position `i` on.
pub open spec fn subs_doc(root: Seq<char>, cmd: CommandInfo, path: Seq<Seq<char>>, i: int) -> Seq<
    char,
>
    decreases cmd, cmd.subcommands@.len() - i,
{
    if i < 0 || i >= cmd.subcommands@.len() {
        Seq::empty()
    } else {
        let sc = cmd.subcommands@[i];
        proof {
            assert(decreases_to!(cmd => cmd.subcommands));
            assert(decreases_to!(cmd.subcommands => cmd.subcommands@));
            assert(decreases_to!(cmd.subcommands@ => cmd.subcommands@[i]));
        }
        (if visible(sc) && nontrivial(sc) {
            command_doc(root, sc, path)
        } else {
            Seq::empty()
        }) + subs_doc(root, cmd, path, i + 1)
    }
}

fn append_desc_lines(out: &mut String, desc: &str)
    ensures
        final(out)@ == old(out)@ + concat_map(lines_of(desc@), desc_line_each()),
{
    let lines = split_lines(desc);
    let ghost start = out@;
    let mut i: usize = 0;
    while i < lines.len()
        invariant
            i <= lines@.len(),
            texts(lines@) == lines_of(desc@),
            out@ == start + concat_map(texts(lines@).subrange(0, i as int), desc_line_each()),
        decreases lines@.len() - i,
    {
        proof {
            lemma_concat_map_step(texts(lines@), i as int, desc_line_each());
            assert(texts(lines@)[i as int] == lines@[i as int]@);
        }
        if lines[i].unicode_len() == 0 {
            out.append("\n");
        } else {
            out.append("        ");
            out.append(lines[i].as_str());
            out.append("\n");
        }
        i = i + 1;
    }
    proof {
        lemma_whole(texts(lines@));
    }
}

fn append_sub_summaries(out: &mut String, full: &str, subs: &Vec<CommandInfo>)
    ensures
        final(out)@ == old(out)@ + concat_map(subs@, sub_summary_each(full@)),
{
    let ghost start = out@;
    let mut i: usize = 0;
    while i < subs.len()
        invariant
            i <= subs@.len(),
            out@ == start + concat_map(subs@.subrange(0, i as int), sub_summary_each(full@)),
        decreases subs@.len() - i,
    {
        proof {
            lemma_concat_map_step(subs@, i as int, sub_summary_each(full@));
        }
        let sc = &subs[i];
        if is_visible(sc) {
            let mut c = owned(full);
            c.append(" ");
            c.append(sc.name.as_str());
            let spacing = compute_spacing(c.as_str(), 40);
            out.append("        ");
            out.append(c.as_str());
            out.append(spacing.as_str());
            out.append(text_or_empty(&sc.about));
            out.append("\n");
        }
        i = i + 1;
    }
    proof {
        lemma_whole(subs@);
    }
}

fn positional_text(a: &ArgInfo) -> (r: String)
    ensures
        r@ == positional_line(*a),
{
    let help = text_or_empty(&a.help);
    if !(a.positional && (help.unicode_len() != 0 || a.possible_values.len() != 0)) {
        return String::new();
    }
    let name = to_uppercase(arg_display_name(a));
    let label = if a.required {
        name
    } else {
        let mut l = owned("[");
        l.append(name.as_str());
        l.append("]");
        l
    };
    let mut d = owned(help);
    if a.possible_values.len() != 0 {
        let vals = join_strings(&a.possible_values, ", ");
        if help.unicode_len() == 0 {
            d = owned("Possible values: ");
            d.append(vals.as_str());
        } else {
            d.append(" (");
            d.append(vals.as_str());
            d.append(")");
        }
    }
    if !a.required {
        d.append(" (optional)");
    }
    let mut r = owned("        ");
    r.append(label.as_str());
    r.append(":  ");
    r.append(d.as_str());
    r.append("\n");
    r
}

fn append_positionals(out: &mut String, args: &Vec<ArgInfo>)
    ensures
        final(out)@ == old(out)@ + concat_map(args@, positional_each()),
{
    let ghost start = out@;
    let mut i: usize = 0;
    while i < args.len()
        invariant
            i <= args@.len(),
            out@ == start + concat_map(args@.subrange(0, i as int), positional_each()),
        decreases args@.len() - i,
    {
        proof {
            lemma_concat_map_step(args@, i as int, positional_each());
        }
        out.append(positional_text(&args[i]).as_str());
        i = i + 1;
    }
    proof {
        lemma_whole(args@);
    }
}

fn option_text(a: &ArgInfo) -> (r: String)
    ensures
        r@ == option_line(*a),
{
    if !is_listed_option(a) {
        return String::new();
    }
    let flag = format_flag(a);
    let mut r = owned("        ");
    r.append(flag.as_str());
    r.append(compute_spacing(flag.as_str(), 24).as_str());
    r.append(text_or_empty(&a.help));
    if a.default_values.len() > 0 {
        r.append(" [default: ");
        r.append(a.default_values[0].as_str());
        r.append("]");
    }
    r.append("\n");
    r
}

fn append_options(out: &mut String, args: &Vec<ArgInfo>)
    ensures
        final(out)@ == old(out)@ + concat_map(args@, option_each()),
{
    let ghost start = out@;
    let mut i: usize = 0;
    while i < args.len()
        invariant
            i <= args@.len(),
            out@ == start + concat_map(args@.subrange(0, i as int), option_each()),
        decreases args@.len() - i,
    {
        proof {
            lemma_concat_map_step(args@, i as int, option_each());
        }
        out.append(option_text(&args[i]).as_str());
        i = i + 1;
    }
    proof {
        lemma_whole(args@);
    }
}

fn is_nontrivial(c: &CommandInfo) -> (r: bool)
    ensures
        r == nontrivial(*c),
{
    any_positional(&c.args) || any_option(&c.args) || any_visible(&c.subcommands)
}

fn write_desc_block(out: &mut String, cmd: &CommandInfo)
    ensures
        final(out)@ == old(out)@ + desc_block(*cmd),
{
    let about = text_or_empty(&cmd.about);
    let desc = match &cmd.long_about {
        Some(l) => l.as_str(),
        None => about,
    };
    assert(desc@ == description(*cmd));
    if desc.unicode_len() != 0 {
        append_desc_lines(out, desc);
        out.append("\n");
    }
}

fn write_summary_block(out: &mut String, full: &str, cmd: &CommandInfo)
    ensures
        final(out)@ == old(out)@ + summary_block(full@, *cmd),
{
    if any_visible(&cmd.subcommands) {
        append_sub_summaries(out, full, &cmd.subcommands);
        out.append("\n");
    }
}

fn write_positional_block(out: &mut String, cmd: &CommandInfo)
    ensures
        final(out)@ == old(out)@ + positional_block(*cmd),
{
    if any_positional(&cmd.args) {
        append_positionals(out, &cmd.args);
        out.append("\n");
    }
}

fn write_options_block(out: &mut String, cmd: &CommandInfo)
    ensures
        final(out)@ == old(out)@ + options_block(*cmd),
{
    let ghost start = out@;
    out.append("  options:\n");
    append_options(out, &cmd.args);
    out.append("        -h, --help      Show a help message.\n");
    out.append("\n");
    assert(out@ =~= start + options_block(*cmd));
}

fn write_command_head(out: &mut String, full: &str, cmd: &CommandInfo)
    ensures
        final(out)@ == old(out)@ + command_head(full@, *cmd),
{
    let ghost start = out@;
    out.append("*");
    out.append(full);
    out.append("*::\n");
    out.append("\tusage: ");
    out.append(build_usage(full, cmd).as_str());
    out.append("\n");
    out.append("\n");
    let ghost s1 = out@;
    write_desc_block(out, cmd);
    write_summary_block(out, full, cmd);
    write_positional_block(out, cmd);
    write_options_block(out, cmd);
    assert(out@ =~= start + command_head(full@, *cmd));
}

fn copy_strings(v: &Vec<String>) -> (r: Vec<String>)
    ensures
        texts(r@) == texts(v@),
{
    let mut r: Vec<String> = Vec::new();
    let mut i: usize = 0;
    while i < v.len()
        invariant
            i <= v@.len(),
            texts(r@) == texts(v@.subrange(0, i as int)),
        decreases v@.len() - i,
    {
        push_text(&mut r, v[i].clone());
        assert(texts(v@.subrange(0, i + 1)) =~= texts(v@.subrange(0, i as int)).push(v@[i as int]@));
        i = i + 1;
    }
    proof {
        lemma_whole(v@);
    }
    r
}

/// Writes the AsciiDoc block of a (sub)command under the program `root` and
/// the path of its parent commands, then the blocks of its listed
/// subcommands that have something of their own to document.
pub fn write_command(out: &mut String, root: &str, cmd: &CommandInfo, parent_path: &Vec<String>)
    ensures
        final(out)@ == old(out)@ + command_doc(root@, *cmd, texts(parent_path@)),
    decreases cmd, cmd.subcommands@.len() + 1,
{
    let mut path = copy_strings(parent_path);
    push_text(&mut path, cmd.name.clone());
    let ghost pth = texts(path@);
    let mut full = owned(root);
    full.append(" ");
    full.append(join_strings(&path, " ").as_str());
    let ghost start = out@;
    write_command_head(out, full.as_str(), cmd);
    let ghost mid = out@;
    let mut i: usize = 0;
    while i < cmd.subcommands.len()
        invariant
            i <= cmd.subcommands@.len(),
            pth == texts(path@),
            mid + subs_doc(root@, *cmd, pth, 0) == out@ + subs_doc(root@, *cmd, pth, i as int),
        decreases cmd.subcommands@.len() - i,
    {
        let sc = &cmd.subcommands[i];
        proof {
            assert(decreases_to!(*cmd => cmd.subcommands));
            assert(decreases_to!(cmd.subcommands => cmd.subcommands@));
            assert(decreases_to!(cmd.subcommands@ => cmd.subcommands@[i as int]));
        }
        let ghost before = out@;
        if is_visible(sc) && is_nontrivial(sc) {
            write_command(out, root, sc, &path);
        }
        assert(out@ + subs_doc(root@, *cmd, pth, i + 1) =~= before + subs_doc(
            root@,
            *cmd,
            pth,
            i as int,
        ));
        i = i + 1;
    }
    assert(out@ =~= start + command_doc(root@, *cmd, texts(parent_path@)));
}

// ---------------------------------------------------------------------------
// The whole page
// ---------------------------------------------------------------------------

/// The title and the NAME section.
pub open spec fn title_section(cmd: CommandInfo) -> Seq<char> {
    cmd.name@ + "(1)\n"@ + "==========\n"@ + "\n"@ + "NAME\n"@ + "----\n"@ + cmd.name@ + " - "@
        + or_empty(cmd.about) + "\n"@ + "\n"@ + "\n"@
}

/// The SYNOPSIS section.
pub open spec fn synopsis_section(cmd: CommandInfo) -> Seq<char> {
    "SYNOPSIS\n"@ + "--------\n"@ + "*"@ + cmd.name@
        + "* [GLOBAL_OPTIONS] [_COMMAND_] [_COMMAND_ARGS_] +\n"@ + "*"@ + cmd.name@
        + "* [_-h, --help_] +\n"@ + "*"@ + cmd.name@ + "* *command* *--help*\n"@ + "\n"@ + "\n"@
}

/// The DESCRIPTION section.
pub open spec fn description_section(cmd: CommandInfo) -> Seq<char> {
    "DESCRIPTION\n"@ + "-----------\n"@ + description(cmd) + "\n"@ + "\n"@ + "\n"@
}

/// The title, NAME, SYNOPSIS and DESCRIPTION sections of the page.
pub open spec fn page_head(cmd: CommandInfo) -> Seq<char> {
    title_section(cmd) + synopsis_section(cmd) + description_section(cmd)
}

/// The entry of a global option: its flags in bold, its help, and an empty line.
pub open spec fn global_option_each() -> spec_fn(ArgInfo) -> Seq<char> {
    |a: ArgInfo|
        if is_option(a) {
            "*"@ + flag_text(a) + "*:: "@ + or_empty(a.help) + "\n"@ + "\n"@
        } else {
            Seq::empty()
        }
}

/// The GLOBAL OPTIONS section; nothing where the program has no options.
pub open spec fn global_options(cmd: CommandInfo) -> Seq<char> {
    if has_options(cmd.args@) {
        "GLOBAL OPTIONS\n"@ + "--------------\n"@ + concat_map(cmd.args@, global_option_each())
            + "\n"@
    } else {
        Seq::empty()
    }
}

/// The block of a listed top-level command.
pub open spec fn top_command_each(name: Seq<char>) -> spec_fn(CommandInfo) -> Seq<char> {
    |sc: CommandInfo|
        if visible(sc) {
            command_doc(name, sc, Seq::empty())
        } else {
            Seq::empty()
        }
}

/// The REPORTING BUGS section.
pub open spec fn page_tail() -> Seq<char> {
    "REPORTING BUGS\n"@ + "--------------\n"@ + "\n"@
        + "Please report all bugs to <https://github.com/virtee/snphost/issues>\n"@
}

/// The manual page of a program: title, name, synopsis, description, global
/// options, the blocks of its listed commands, and where to report bugs.
pub open spec fn manual_page(cmd: CommandInfo) -> Seq<char> {
    page_head(cmd) + global_options(cmd) + "COMMANDS\n"@ + "--------\n"@ + concat_map(
        cmd.subcommands@,
        top_command_each(cmd.name@),
    ) + page_tail()
}

fn write_title(out: &mut String, cmd: &CommandInfo)
    ensures
        final(out)@ == old(out)@ + title_section(*cmd),
{
    let ghost start = out@;
    let name = cmd.name.as_str();
    out.append(name);
    out.append("(1)\n");
    out.append("==========\n");
    out.append("\n");
    out.append("NAME\n");
    out.append("----\n");
    out.append(name);
    out.append(" - ");
    out.append(text_or_empty(&cmd.about));
    out.append("\n");
    out.append("\n");
    out.append("\n");
    assert(out@ =~= start + cmd.name@ + "(1)\n"@ + "==========\n"@ + "\n"@ + "NAME\n"@ + "----\n"@
        + cmd.name@ + " - "@ + or_empty(cmd.about) + "\n"@ + "\n"@ + "\n"@);
}

fn write_synopsis(out: &mut String, cmd: &CommandInfo)
    ensures
        final(out)@ == old(out)@ + synopsis_section(*cmd),
{
    let ghost start = out@;
    let name = cmd.name.as_str();
    out.append("SYNOPSIS\n");
    out.append("--------\n");
    out.append("*");
    out.append(name);
    out.append("* [GLOBAL_OPTIONS] [_COMMAND_] [_COMMAND_ARGS_] +\n");
    out.append("*");
    out.append(name);
    out.append("* [_-h, --help_] +\n");
    out.append("*");
    out.append(name);
    out.append("* *command* *--help*\n");
    out.append("\n");
    out.append("\n");
    assert(out@ =~= start + "SYNOPSIS\n"@ + "--------\n"@ + "*"@ + cmd.name@
        + "* [GLOBAL_OPTIONS] [_COMMAND_] [_COMMAND_ARGS_] +\n"@ + "*"@ + cmd.name@
        + "* [_-h, --help_] +\n"@ + "*"@ + cmd.name@ + "* *command* *--help*\n"@ + "\n"@ + "\n"@);
}

fn write_page_head(out: &mut String, cmd: &CommandInfo)
    ensures
        final(out)@ == old(out)@ + page_head(*cmd),
{
    let ghost start = out@;
    write_title(out, cmd);
    write_synopsis(out, cmd);
    let about = text_or_empty(&cmd.about);
    let desc = match &cmd.long_about {
        Some(l) => l.as_str(),
        None => about,
    };
    assert(desc@ == description(*cmd));
    let ghost mid = out@;
    out.append("DESCRIPTION\n");
    out.append("-----------\n");
    out.append(desc);
    out.append("\n");
    out.append("\n");
    out.append("\n");
    assert(out@ =~= mid + description_section(*cmd));
    assert(out@ =~= start + page_head(*cmd));
}

fn write_global_options(out: &mut String, cmd: &CommandInfo)
    ensures
        final(out)@ == old(out)@ + global_options(*cmd),
{
    if !any_option(&cmd.args) {
        return;
    }
    let ghost start = out@;
    out.append("GLOBAL OPTIONS\n");
    out.append("--------------\n");
    let ghost mid = out@;
    let mut i: usize = 0;
    while i < cmd.args.len()
        invariant
            i <= cmd.args@.len(),
            out@ == mid + concat_map(cmd.args@.subrange(0, i as int), global_option_each()),
        decreases cmd.args@.len() - i,
    {
        proof {
            lemma_concat_map_step(cmd.args@, i as int, global_option_each());
        }
        let a = &cmd.args[i];
        if is_listed_option(a) {
            out.append("*");
            out.append(format_flag(a).as_str());
            out.append("*:: ");
            out.append(text_or_empty(&a.help));
            out.append("\n");
            out.append("\n");
        }
        i = i + 1;
    }
    proof {
        lemma_whole(cmd.args@);
    }
    out.append("\n");
    assert(out@ =~= start + global_options(*cmd));
}

/// Generates the AsciiDoc manual page of a program from the description of
/// its command line.
pub fn generate(cmd: &CommandInfo) -> (r: String)
    ensures
        r@ == manual_page(*cmd),
{
    let mut out = String::new();
    write_page_head(&mut out, cmd);
    write_global_options(&mut out, cmd);
    out.append("COMMANDS\n");
    out.append("--------\n");
    let ghost mid = out@;
    let no_path: Vec<String> = Vec::new();
    assert(texts(no_path@) =~= Seq::<Seq<char>>::empty());
    let mut i: usize = 0;
    while i < cmd.subcommands.len()
        invariant
            i <= cmd.subcommands@.len(),
            texts(no_path@) == Seq::<Seq<char>>::empty(),
            out@ == mid + concat_map(
                cmd.subcommands@.subrange(0, i as int),
                top_command_each(cmd.name@),
            ),
        decreases cmd.subcommands@.len() - i,
    {
        proof {
            lemma_concat_map_step(cmd.subcommands@, i as int, top_command_each(cmd.name@));
        }
        let sc = &cmd.subcommands[i];
        if is_visible(sc) {
            write_command(&mut out, cmd.name.as_str(), sc, &no_path);
        }
        i = i + 1;
    }
    proof {
        lemma_whole(cmd.subcommands@);
    }
    let ghost before_tail = out@;
    out.append("REPORTING BUGS\n");
    out.append("--------------\n");
    out.append("\n");
    out.append("Please report all bugs to <https://github.com/virtee/snphost/issues>\n");
    assert(out@ =~= before_tail + page_tail());
    assert(out@ =~= manual_page(*cmd));
    out
}

} // verus!

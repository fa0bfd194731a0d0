use snphost::generate_adoc::{
    build_usage, compute_spacing, flag_with_value, format_flag, generate, join_strings, split_lines, write_command,
    ArgInfo, CommandInfo,
};

fn arg(id: &str) -> ArgInfo {
    ArgInfo {
        id: id.to_string(),
        positional: false,
        short: None,
        long: None,
        help: None,
        value_names: vec![],
        possible_values: vec![],
        required: false,
        default_values: vec![],
        takes_value: false,
    }
}

fn flag(id: &str, short: Option<char>, long: &str, help: &str) -> ArgInfo {
    ArgInfo { short, long: Some(long.to_string()), help: Some(help.to_string()), ..arg(id) }
}

fn positional(id: &str, help: Option<&str>, possible: &[&str], required: bool) -> ArgInfo {
    ArgInfo {
        positional: true,
        help: help.map(|h| h.to_string()),
        possible_values: possible.iter().map(|p| p.to_string()).collect(),
        required,
        takes_value: true,
        ..arg(id)
    }
}

fn command(name: &str, about: Option<&str>, args: Vec<ArgInfo>, subs: Vec<CommandInfo>) -> CommandInfo {
    CommandInfo {
        name: name.to_string(),
        about: about.map(|a| a.to_string()),
        long_about: None,
        hidden: false,
        args,
        subcommands: subs,
    }
}

fn vek() -> CommandInfo {
    let model = ArgInfo {
        long: Some("processor-model".to_string()),
        help: Some("Specify processor model".to_string()),
        value_names: vec!["model".to_string()],
        default_values: vec!["milan".to_string()],
        takes_value: true,
        ..arg("processor_model")
    };
    command(
        "vek",
        Some("Fetch the VEK"),
        vec![
            model,
            positional("encoding", Some("Certificate encoding"), &["der", "pem"], true),
            positional("path", Some("Directory to store certificate"), &[], true),
            positional("url", None, &[], false),
            flag("help", Some('h'), "help", "Print help"),
        ],
        vec![],
    )
}

fn program() -> CommandInfo {
    let mut ok = command(
        "ok",
        Some("Probe system for SEV-SNP support"),
        vec![flag("short", Some('s'), "short", "Show only failures with summary counts")],
        vec![],
    );
    ok.long_about = Some("Probe system for SEV-SNP support\n\nChecks CPU, firmware and KVM.\r\n".to_string());
    let fetch = command("fetch", Some("Fetch certificates"), vec![], vec![vek()]);
    let mut hidden = command("debug", Some("Hidden"), vec![], vec![]);
    hidden.hidden = true;
    command(
        "snphost",
        Some("Utilities for managing the SEV-SNP environment"),
        vec![
            flag("quiet", Some('q'), "quiet", "Don't print anything to the console"),
            flag("help", Some('h'), "help", "Print help"),
            flag("version", Some('V'), "version", "Print version"),
        ],
        vec![ok, fetch, command("help", Some("Print this message"), vec![], vec![]), hidden],
    )
}

#[test]
fn spacing_pads_to_width() {
    assert_eq!(compute_spacing("ab", 6), "    ");
    assert_eq!(compute_spacing("abcdef", 4), "  ");
    assert_eq!(compute_spacing("abcd", 4), "  ");
    assert_eq!(compute_spacing("é", 4), "  ");
    assert_eq!(compute_spacing("", 3), "   ");
}

#[test]
fn flags() {
    let mut a = flag("cert", Some('c'), "client-cert", "x");
    a.takes_value = true;
    a.value_names = vec!["value".to_string()];
    assert_eq!(format_flag(&a), "-c, --client-cert VALUE");
    assert_eq!(format_flag(&flag("quiet", Some('q'), "quiet", "x")), "-q, --quiet");
    let mut short_only = arg("s");
    short_only.short = Some('s');
    assert_eq!(format_flag(&short_only), "-s");
    assert_eq!(format_flag(&arg("none")), "");
    assert_eq!(flag_with_value(&a, "FILE"), "-c, --client-cert FILE");
    assert_eq!(flag_with_value(&a, "file"), "-c, --client-cert file");
}

#[test]
fn usage_line() {
    assert_eq!(
        build_usage("snphost fetch vek", &vek()),
        "snphost fetch vek [OPTIONS] [der, pem] PATH [URL]"
    );
    let fetch = command("fetch", None, vec![], vec![vek(), command("help", None, vec![], vec![])]);
    assert_eq!(build_usage("snphost fetch", &fetch), "snphost fetch [vek]");
}

#[test]
fn lines_and_joins() {
    assert_eq!(split_lines("a\n\nb\r\nc\n"), vec!["a", "", "b", "c"]);
    assert_eq!(split_lines(""), Vec::<String>::new());
    assert_eq!(split_lines("\n"), vec![""]);
    assert_eq!(split_lines("a\r\nb\r"), vec!["a", "b\r"]);
    assert_eq!(split_lines("foo\nbar\n\r"), vec!["foo", "bar", "\r"]);
    assert_eq!(join_strings(&vec!["a".to_string(), "b".to_string()], ", "), "a, b");
    assert_eq!(join_strings(&vec![], ", "), "");
}

#[test]
fn command_block() {
    let mut out = String::from("X");
    write_command(&mut out, "snphost", &vek(), &vec!["fetch".to_string()]);
    let expected = String::from("X")
        + "*snphost fetch vek*::\n"
        + "\tusage: snphost fetch vek [OPTIONS] [der, pem] PATH [URL]\n"
        + "\n"
        + "        Fetch the VEK\n"
        + "\n"
        + "        ENCODING:  Certificate encoding (der, pem)\n"
        + "        PATH:  Directory to store certificate\n"
        + "\n"
        + "  options:\n"
        + "        --processor-model MODEL Specify processor model [default: milan]\n"
        + "        -h, --help      Show a help message.\n"
        + "\n";
    assert_eq!(out, expected);
}

#[test]
fn manual_page() {
    let page = generate(&program());
    let expected = String::new()
        + "snphost(1)\n"
        + "==========\n"
        + "\n"
        + "NAME\n"
        + "----\n"
        + "snphost - Utilities for managing the SEV-SNP environment\n"
        + "\n\n"
        + "SYNOPSIS\n"
        + "--------\n"
        + "*snphost* [GLOBAL_OPTIONS] [_COMMAND_] [_COMMAND_ARGS_] +\n"
        + "*snphost* [_-h, --help_] +\n"
        + "*snphost* *command* *--help*\n"
        + "\n\n"
        + "DESCRIPTION\n"
        + "-----------\n"
        + "Utilities for managing the SEV-SNP environment\n"
        + "\n\n"
        + "GLOBAL OPTIONS\n"
        + "--------------\n"
        + "*-q, --quiet*:: Don't print anything to the console\n"
        + "\n"
        + "\n"
        + "COMMANDS\n"
        + "--------\n"
        + "*snphost ok*::\n"
        + "\tusage: snphost ok [OPTIONS]\n"
        + "\n"
        + "        Probe system for SEV-SNP support\n"
        + "\n"
        + "        Checks CPU, firmware and KVM.\n"
        + "\n"
        + "  options:\n"
        + "        -s, --short             Show only failures with summary counts\n"
        + "        -h, --help      Show a help message.\n"
        + "\n"
        + "*snphost fetch*::\n"
        + "\tusage: snphost fetch [vek]\n"
        + "\n"
        + "        Fetch certificates\n"
        + "\n"
        + "        snphost fetch vek                       Fetch the VEK\n"
        + "\n"
        + "  options:\n"
        + "        -h, --help      Show a help message.\n"
        + "\n"
        + "*snphost fetch vek*::\n"
        + "\tusage: snphost fetch vek [OPTIONS] [der, pem] PATH [URL]\n"
        + "\n"
        + "        Fetch the VEK\n"
        + "\n"
        + "        ENCODING:  Certificate encoding (der, pem)\n"
        + "        PATH:  Directory to store certificate\n"
        + "\n"
        + "  options:\n"
        + "        --processor-model MODEL Specify processor model [default: milan]\n"
        + "        -h, --help      Show a help message.\n"
        + "\n"
        + "REPORTING BUGS\n"
        + "--------------\n"
        + "\n"
        + "Please report all bugs to <https://github.com/virtee/snphost/issues>\n";
    assert_eq!(page, expected);
}

#[test]
fn optional_positional_descriptions() {
    let mut c = command("x", None, vec![positional("mode", None, &["a", "b"], false)], vec![]);
    c.args.push(positional("file", Some("Input"), &[], false));
    let mut out = String::new();
    write_command(&mut out, "p", &c, &vec![]);
    assert!(out.contains("        [MODE]:  Possible values: a, b (optional)\n"));
    assert!(out.contains("        [FILE]:  Input (optional)\n"));
    assert!(out.starts_with("*p x*::\n\tusage: p x [a, b] [FILE]\n\n"));
}

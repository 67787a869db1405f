use sh_exec::format_command;

fn no_pos() -> Vec<String> {
    Vec::new()
}

fn no_named() -> Vec<(String, String)> {
    Vec::new()
}

fn pos(values: &[&str]) -> Vec<String> {
    values.iter().map(|v| v.to_string()).collect()
}

fn named(pairs: &[(&str, &str)]) -> Vec<(String, String)> {
    pairs.iter().map(|(k, v)| (k.to_string(), v.to_string())).collect()
}

#[test]
fn plain_template_is_unchanged() {
    let r = format_command("echo Hello World", &no_pos(), &no_named());
    assert_eq!(r.unwrap(), "echo Hello World");
}

#[test]
fn positional_placeholders_fill_in_order() {
    let r = format_command("cp {} {}", &pos(&["a.txt", "b.txt"]), &no_named());
    assert_eq!(r.unwrap(), "cp a.txt b.txt");
}

#[test]
fn named_placeholder_takes_bound_value() {
    let r = format_command("ls {p}", &no_pos(), &named(&[("p", "/etc/hosts")]));
    assert_eq!(r.unwrap(), "ls /etc/hosts");
}

#[test]
fn named_placeholder_takes_first_binding() {
    let r = format_command("ls {p}", &no_pos(), &named(&[("p", "/one"), ("p", "/two")]));
    assert_eq!(r.unwrap(), "ls /one");
}

#[test]
fn positional_and_named_mix() {
    let r = format_command(
        "tar -C {dir} -cf {} {}",
        &pos(&["out.tar", "src"]),
        &named(&[("dir", "/tmp")]),
    );
    assert_eq!(r.unwrap(), "tar -C /tmp -cf out.tar src");
}

#[test]
fn doubled_braces_are_literal() {
    let r = format_command("echo {{}} and {{x}}", &no_pos(), &no_named());
    assert_eq!(r.unwrap(), "echo {} and {x}");
}

#[test]
fn unclosed_brace_is_rejected() {
    assert_eq!(format_command("echo {p", &no_pos(), &named(&[("p", "v")])), None);
}

#[test]
fn stray_closing_brace_is_rejected() {
    assert_eq!(format_command("echo }", &no_pos(), &no_named()), None);
}

#[test]
fn missing_positional_value_is_rejected() {
    assert_eq!(format_command("cp {} {}", &pos(&["only-one"]), &no_named()), None);
}

#[test]
fn unbound_name_is_rejected() {
    assert_eq!(format_command("ls {q}", &no_pos(), &named(&[("p", "v")])), None);
}

#[test]
fn empty_template_formats_to_empty() {
    assert_eq!(format_command("", &no_pos(), &no_named()).unwrap(), "");
}

#[test]
fn placeholder_values_may_be_empty() {
    let r = format_command("a{}b{n}c", &pos(&[""]), &named(&[("n", "")]));
    assert_eq!(r.unwrap(), "abc");
}

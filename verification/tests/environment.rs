use atac::request::environment::{Environment, TextSegment};
use regex::Regex;

fn environment(values: &[(&str, &str)]) -> Environment {
    Environment {
        name: "env".to_string(),
        values: values.iter().map(|(key, value)| (key.to_string(), value.to_string())).collect(),
        path: ".env.test".to_string(),
    }
}

fn plain(text: &str) -> TextSegment {
    TextSegment { text: text.to_string(), known: false }
}

fn known(text: &str) -> TextSegment {
    TextSegment { text: text.to_string(), known: true }
}

#[test]
fn substitute_replaces_a_placeholder() {
    let env = environment(&[("host", "example.com")]);
    assert_eq!(env.substitute("https://{{host}}/api"), "https://example.com/api");
}

#[test]
fn substitute_replaces_every_occurrence_of_every_key() {
    let env = environment(&[("a", "1"), ("b", "22")]);
    assert_eq!(env.substitute("{{a}}{{b}}-{{a}}-{{b}}{{a}}"), "122-1-221");
}

#[test]
fn substitute_leaves_unknown_placeholders() {
    let env = environment(&[("a", "1")]);
    assert_eq!(env.substitute("{{a}} {{b}} {{ a }} {a} {{a}"), "1 {{b}} {{ a }} {a} {{a}");
}

#[test]
fn substitute_with_an_empty_environment_changes_nothing() {
    let env = environment(&[]);
    assert_eq!(env.substitute("x {{a}} y"), "x {{a}} y");
}

#[test]
fn substitute_on_empty_text() {
    let env = environment(&[("a", "1")]);
    assert_eq!(env.substitute(""), "");
}

#[test]
fn substitute_does_not_read_values_again() {
    let env = environment(&[("a", "{{b}}"), ("b", "2")]);
    assert_eq!(env.substitute("{{a}}|{{b}}"), "{{b}}|2");
    let env = environment(&[("b", "2"), ("a", "{{b}}")]);
    assert_eq!(env.substitute("{{a}}|{{b}}"), "{{b}}|2");
}

#[test]
fn substitute_does_not_join_a_value_with_the_text_around_it() {
    let env = environment(&[("a", "{"), ("b", "2")]);
    assert_eq!(env.substitute("{{a}}{b}}"), "{{b}}");
}

#[test]
fn substitute_replaces_keys_that_are_no_words() {
    let env = environment(&[("my-key", "v"), ("", "empty"), ("a b", "w")]);
    assert_eq!(env.substitute("{{my-key}},{{}},{{a b}}"), "v,empty,w");
}

#[test]
fn substitute_handles_text_beyond_ascii() {
    let env = environment(&[("clé", "värde")]);
    assert_eq!(env.substitute("é{{clé}}→{{clé}}ü"), "évärde→värdeü");
}

#[test]
fn substitute_with_an_empty_value_removes_the_placeholder() {
    let env = environment(&[("a", "")]);
    assert_eq!(env.substitute("x{{a}}y"), "xy");
}

#[test]
fn substitute_reads_extra_braces_as_text() {
    let env = environment(&[("a", "1")]);
    assert_eq!(env.substitute("{{{a}}}"), "{1}");
    assert_eq!(env.substitute("{{{{a}}}}"), "{{1}}");
}

#[test]
fn substitute_takes_the_first_of_two_keys_that_fit() {
    let env = environment(&[("a", "short"), ("a}}{{b", "long")]);
    assert_eq!(env.substitute("{{a}}{{b}}"), "short{{b}}");
    let env = environment(&[("a}}{{b", "long"), ("a", "short")]);
    assert_eq!(env.substitute("{{a}}{{b}}"), "long");
}

#[test]
fn highlight_marks_known_placeholders() {
    let env = environment(&[("host", "example.com")]);
    assert_eq!(
        env.highlight("https://{{host}}/api"),
        vec![plain("https://"), known("{{host}}"), plain("/api")]
    );
}

#[test]
fn highlight_of_text_without_placeholders_is_one_segment() {
    let env = environment(&[("host", "example.com")]);
    assert_eq!(env.highlight("plain text"), vec![plain("plain text")]);
    assert_eq!(env.highlight(""), vec![plain("")]);
}

#[test]
fn highlight_leaves_unknown_placeholders_in_the_text_around_them() {
    let env = environment(&[("a", "1")]);
    assert_eq!(
        env.highlight("x{{b}}y{{a}}z{{c}}"),
        vec![plain("x{{b}}y"), known("{{a}}"), plain("z{{c}}")]
    );
}

#[test]
fn highlight_keeps_empty_segments_between_neighbours_and_at_the_ends() {
    let env = environment(&[("a", "1"), ("b", "2")]);
    assert_eq!(
        env.highlight("{{a}}{{b}}"),
        vec![plain(""), known("{{a}}"), plain(""), known("{{b}}"), plain("")]
    );
}

#[test]
fn highlight_segments_put_together_give_the_text() {
    let env = environment(&[("a", "1"), ("bb", "2")]);
    let text = "{{a}} and {{bb}} but not {{c}} nor {{ a }}, {{a}}{{bb}}!";
    let joined: String =
        env.highlight(text).iter().map(|segment| segment.text.as_str()).collect();
    assert_eq!(joined, text);
}

#[test]
fn highlight_does_not_mark_keys_that_are_no_words() {
    let env = environment(&[("my-key", "v"), ("", "e")]);
    assert_eq!(env.highlight("{{my-key}}{{}}"), vec![plain("{{my-key}}{{}}")]);
}

#[test]
fn highlight_knows_word_characters_beyond_ascii() {
    let env = environment(&[("clé_1", "v")]);
    assert_eq!(env.highlight("é{{clé_1}}ü"), vec![plain("é"), known("{{clé_1}}"), plain("ü")]);
}

#[test]
fn highlight_reads_extra_braces_as_text() {
    let env = environment(&[("a", "1")]);
    assert_eq!(env.highlight("{{{a}}}"), vec![plain("{"), known("{{a}}"), plain("}")]);
}

fn known_spans(env: &Environment, text: &str) -> Vec<(usize, usize)> {
    let mut spans = vec![];
    let mut at = 0;
    for segment in env.highlight(text) {
        let end = at + segment.text.len();
        if segment.known {
            spans.push((at, end));
        }
        at = end;
    }
    spans
}

fn replaced_spans(env: &Environment, text: &str) -> Vec<(usize, usize)> {
    // Marks each value so that what substitution rewrote can be told from the
    // text around it, then maps the marks back to places in `text`.
    let marked = Environment {
        name: env.name.clone(),
        values: env
            .values
            .iter()
            .map(|(key, _)| (key.clone(), format!("\u{1}{}\u{2}", key.chars().count())))
            .collect(),
        path: env.path.clone(),
    };
    let output = marked.substitute(text);
    let mut spans = vec![];
    let mut at = 0;
    let mut rest = output.as_str();
    while let Some(start) = rest.find('\u{1}') {
        at += start;
        let end = rest.find('\u{2}').unwrap();
        let key_chars: usize = rest[start + 1..end].parse().unwrap();
        let key_bytes: usize =
            text[at + 2..].chars().take(key_chars).map(|c| c.len_utf8()).sum();
        spans.push((at, at + key_bytes + 4));
        at += key_bytes + 4;
        rest = &rest[end + 1..];
    }
    spans
}

#[test]
fn substitution_and_highlighting_find_the_same_spans() {
    let env = environment(&[("host", "h"), ("port", "p"), ("été", "s"), ("_", "u")]);
    for text in [
        "",
        "no placeholder",
        "{{host}}",
        "https://{{host}}:{{port}}/{{path}}?q={{host}}",
        "{{host}}{{port}}{{été}}{{_}}",
        "{{{host}}}",
        "{{host}{{port}}",
        "{{ho{{host}}st}}",
        "{{unknown}}{{host}}",
        "{{host}}{",
        "}}{{host}}{{",
        "ü{{été}}ü{{host}}",
    ] {
        assert_eq!(replaced_spans(&env, text), known_spans(&env, text), "{text}");
    }
}

#[test]
fn highlighting_marks_what_the_regular_expression_matches() {
    let pattern = Regex::new(r"\{\{(\w+)}}").unwrap();
    let env = environment(&[("host", "h"), ("a1", "p"), ("été", "s"), ("x_y", "u")]);
    for text in [
        "",
        "{{host}}",
        "{{host}} {{missing}} {{a1}}",
        "{{{host}}}}",
        "{{ho-st}}{{été}}{{x_y}}",
        "{{host}{{a1}}",
        "{{}}{{a1}}",
        "{{ host }}{{host}}",
        "{{host{{a1}}}}",
        "{{٣}}{{host}}",
    ] {
        let expected: Vec<(usize, usize)> = pattern
            .captures_iter(text)
            .filter(|found| env.values.iter().any(|(key, _)| key == &found[1]))
            .map(|found| {
                let whole = found.get(0).unwrap();
                (whole.start(), whole.end())
            })
            .collect();
        assert_eq!(known_spans(&env, text), expected, "{text}");
    }
}

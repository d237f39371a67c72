use stabilityai::multipart::{text_prompt_fields, FieldValue, FormField};
use stabilityai::types::{TextPrompt, TextPrompts};

fn prompts(items: Vec<TextPrompt>) -> TextPrompts {
    TextPrompts { text_prompts: items }
}

fn text_of(f: &FormField) -> String {
    match &f.value {
        FieldValue::Text(t) => t.clone(),
        FieldValue::File(p) => panic!("unexpected file field {}", p),
    }
}

/// Parses `text_prompts[i][part]` back into its index and part.
fn parse_name(name: &str) -> (usize, String) {
    let rest = name.strip_prefix("text_prompts[").expect("prefix");
    let close = rest.find(']').expect("index end");
    let index: usize = rest[..close].parse().expect("index");
    let part = rest[close..].strip_prefix("][").expect("part start");
    let part = part.strip_suffix(']').expect("part end");
    (index, part.to_string())
}

#[test]
fn create_text_prompts() {
    let p = prompts(vec![TextPrompt::new("This is &str prompt")]);
    assert_eq!(p.text_prompts.len(), 1);
    assert_eq!(p.text_prompts[0].text, "This is &str prompt");
    assert_eq!(p.text_prompts[0].weight, None);

    let p = prompts(vec![TextPrompt::new("This is String")]);
    assert_eq!(p.text_prompts[0].text, "This is String");

    let p = prompts(vec![TextPrompt::new("This is first"), TextPrompt::new("This is second")]);
    assert_eq!(p.text_prompts[1].text, "This is second");

    let p = prompts(vec![TextPrompt::new("First string"), TextPrompt::new("Second string")]);
    assert_eq!(p.text_prompts[0].text, "First string");

    let p = prompts(vec![TextPrompt::new("First"), TextPrompt::new("Second")]);
    assert_eq!(p.text_prompts.len(), 2);

    let p = prompts(vec![TextPrompt::new("first"), TextPrompt::new("second")]);
    assert_eq!(p.text_prompts[1].text, "second");
}

#[test]
fn create_text_prompts_with_weights() {
    let p = prompts(vec![TextPrompt::weighted("This is &str prompt", &1.0f64.to_string())]);
    assert_eq!(p.text_prompts[0].weight.as_deref(), Some("1"));

    let p = prompts(vec![
        TextPrompt::weighted("This is first", &0.2f64.to_string()),
        TextPrompt::weighted("This is second", &0.3f64.to_string()),
    ]);
    assert_eq!(p.text_prompts[0].weight.as_deref(), Some("0.2"));
    assert_eq!(p.text_prompts[1].weight.as_deref(), Some("0.3"));

    let p = prompts(vec![
        TextPrompt::weighted("First string", &0.1f64.to_string()),
        TextPrompt::weighted("Second string", &0.2f64.to_string()),
    ]);
    assert_eq!(p.text_prompts[1].text, "Second string");

    let p = prompts(vec![
        TextPrompt::weighted("First", &0.1f64.to_string()),
        TextPrompt::weighted("Second", &0.22f64.to_string()),
    ]);
    assert_eq!(p.text_prompts[1].weight.as_deref(), Some("0.22"));

    let p = prompts(vec![
        TextPrompt::weighted("first", &0.111f64.to_string()),
        TextPrompt::weighted("second", &0.222f64.to_string()),
    ]);
    assert_eq!(p.text_prompts[0].weight.as_deref(), Some("0.111"));
}

#[test]
fn prompt_fields_are_indexed_and_skip_empty_text() {
    let p = prompts(vec![
        TextPrompt::weighted("A lighthouse on a cliff", "0.5"),
        TextPrompt::new(""),
        TextPrompt::weighted("land, ground, dirt, grass", "-0.9"),
        TextPrompt::new("sky"),
    ]);
    let fields = text_prompt_fields(&p);
    let names: Vec<&str> = fields.iter().map(|f| f.name.as_str()).collect();
    assert_eq!(
        names,
        vec![
            "text_prompts[0][text]",
            "text_prompts[0][weight]",
            "text_prompts[2][text]",
            "text_prompts[2][weight]",
            "text_prompts[3][text]",
        ]
    );
    assert_eq!(text_of(&fields[0]), "A lighthouse on a cliff");
    assert_eq!(text_of(&fields[1]), "0.5");
    assert_eq!(text_of(&fields[3]), "-0.9");
    assert_eq!(text_of(&fields[4]), "sky");
}

#[test]
fn prompt_fields_round_trip() {
    let given = vec![
        ("first", Some("0.25")),
        ("", Some("3")),
        ("third", None),
        ("fourth", Some("-1")),
        ("", None),
        ("sixth", Some("2")),
        ("seventh", None),
        ("eighth", None),
        ("ninth", None),
        ("tenth", Some("0.1")),
        ("eleventh", Some("7")),
    ];
    let p = prompts(
        given
            .iter()
            .map(|(t, w)| match w {
                Some(w) => TextPrompt::weighted(t, w),
                None => TextPrompt::new(t),
            })
            .collect(),
    );
    let fields = text_prompt_fields(&p);
    let mut decoded: Vec<(usize, String, Option<String>)> = vec![];
    for f in &fields {
        let (index, part) = parse_name(&f.name);
        match part.as_str() {
            "text" => decoded.push((index, text_of(f), None)),
            "weight" => {
                let last = decoded.last_mut().expect("weight after text");
                assert_eq!(last.0, index);
                last.2 = Some(text_of(f));
            }
            other => panic!("unexpected part {}", other),
        }
    }
    let expected: Vec<(usize, String, Option<String>)> = given
        .iter()
        .enumerate()
        .filter(|(_, (t, _))| !t.is_empty())
        .map(|(i, (t, w))| (i, t.to_string(), w.map(|w| w.to_string())))
        .collect();
    assert_eq!(decoded, expected);
}

#[test]
fn no_prompts_give_no_fields() {
    assert!(text_prompt_fields(&prompts(vec![])).is_empty());
    assert!(text_prompt_fields(&prompts(vec![TextPrompt::new(""), TextPrompt::weighted("", "1")])).is_empty());
}

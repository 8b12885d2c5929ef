use electric_oxen::errors::JobError;
use electric_oxen::model::Config;
use electric_oxen::model::Season;
use electric_oxen::model::WorkItem;
use electric_oxen::upload::upload_form_with;
use electric_oxen::upload::upload_frame;
use electric_oxen::upload::upload_result;
use electric_oxen::upload::work_set;
use electric_oxen::upload::work_set_with;
use electric_oxen::upload::Field;

fn config() -> Config {
    Config {
        server: "https://sheeps.triple6.org".to_string(),
        apikey: "SECRET-REDACTED".to_string(),
        debug: false,
        no_download: false,
    }
}

fn season(name: &str) -> Season {
    Season {
        id: 1,
        name: name.to_string(),
        width: 1920,
        height: 1080,
        quality: 50000,
        nframes: 120,
        gid: 244,
        started: None,
        ended: None,
        active: true,
        branch: "gpu".to_string(),
    }
}

fn field(name: &str, value: &str) -> Field {
    Field { name: name.to_string(), value: value.to_string() }
}

/// Reads a work item back out of its JSON form.
fn parse_back(text: &str) -> WorkItem {
    let value: serde_json::Value = serde_json::from_str(text).unwrap();
    let object = value.as_object().unwrap();
    assert_eq!(object.len(), 4);
    WorkItem {
        sequence: object["sequence"].as_str().unwrap().to_string(),
        frame: object["frame"].as_u64().unwrap() as u32,
        genome_id: object["genome_id"].as_u64().unwrap() as u32,
        genome2_id: object["genome2_id"].as_u64().unwrap() as u32,
    }
}

#[test]
fn work_item_is_written_as_a_compact_object() {
    let item = WorkItem { sequence: "abc".to_string(), frame: 1, genome_id: 1, genome2_id: 1 };
    assert_eq!(
        work_set(&item),
        Ok("{\"sequence\":\"abc\",\"frame\":1,\"genome_id\":1,\"genome2_id\":1}".to_string())
    );
}

#[test]
fn work_item_keeps_its_numbers() {
    let item = WorkItem {
        sequence: "electricsheep.244.00001.01696_electricsheep.244.00001.01696".to_string(),
        frame: 0,
        genome_id: 13903,
        genome2_id: 4294967295,
    };
    assert_eq!(
        work_set(&item).unwrap(),
        "{\"sequence\":\"electricsheep.244.00001.01696_electricsheep.244.00001.01696\",\"frame\":0,\"genome_id\":13903,\"genome2_id\":4294967295}"
    );
}

#[test]
fn sequence_is_escaped_as_json_asks() {
    let item = WorkItem { sequence: "a\"b\\c\n".to_string(), frame: 2, genome_id: 3, genome2_id: 4 };
    assert_eq!(
        work_set(&item).unwrap(),
        "{\"sequence\":\"a\\\"b\\\\c\\n\",\"frame\":2,\"genome_id\":3,\"genome2_id\":4}"
    );
}

#[test]
fn work_set_parses_back_to_the_work_item() {
    let items = vec![
        WorkItem { sequence: "abc".to_string(), frame: 1, genome_id: 1, genome2_id: 1 },
        WorkItem { sequence: String::new(), frame: 0, genome_id: 0, genome2_id: 0 },
        WorkItem {
            sequence: "quote\" backslash\\ tab\t bell\u{7} \",\"frame\":9".to_string(),
            frame: 120,
            genome_id: 13903,
            genome2_id: 13904,
        },
        WorkItem {
            sequence: "sch\u{f6}n \u{1f411} \u{2028}".to_string(),
            frame: u32::MAX,
            genome_id: u32::MAX,
            genome2_id: u32::MAX - 1,
        },
    ];
    for item in items {
        assert_eq!(parse_back(&work_set(&item).unwrap()), item);
    }
}

#[test]
fn upload_carries_a_work_set_that_parses_back() {
    let item = WorkItem { sequence: "a\"b".to_string(), frame: 5, genome_id: 6, genome2_id: 7 };
    let form = upload_frame("frames\\S1.a.5.jpg", &config(), &season("S1"), &item).unwrap();
    assert_eq!(form.texts[1].name, "work_set");
    assert_eq!(parse_back(&form.texts[1].value), item);
}

#[test]
fn object_is_framed_around_the_quoted_sequence() {
    let item = WorkItem { sequence: "ignored".to_string(), frame: 10, genome_id: 20, genome2_id: 30 };
    assert_eq!(
        work_set_with("\"q\"", &item),
        "{\"sequence\":\"q\",\"frame\":10,\"genome_id\":20,\"genome2_id\":30}"
    );
}

#[test]
fn upload_form_has_the_file_and_four_text_parts() {
    let item = WorkItem { sequence: "abc".to_string(), frame: 1, genome_id: 1, genome2_id: 1 };
    let form = upload_frame("frames\\S1.abc.1.jpg", &config(), &season("S1"), &item).unwrap();
    assert_eq!(form.url, "https://sheeps.triple6.org/api/upload");
    assert_eq!(form.file, field("file", "frames\\S1.abc.1.jpg"));
    assert_eq!(
        form.texts,
        vec![
            field("apikey", "SECRET-REDACTED"),
            field("work_set", "{\"sequence\":\"abc\",\"frame\":1,\"genome_id\":1,\"genome2_id\":1}"),
            field("branch", "S1"),
            field("gpu", "true"),
        ]
    );
}

#[test]
fn form_is_built_around_the_given_work_set() {
    let form = upload_form_with("f.jpg", &config(), &season("S9"), "{}".to_string());
    assert_eq!(form.texts[1], field("work_set", "{}"));
    assert_eq!(form.texts[2], field("branch", "S9"));
    assert_eq!(form.file, field("file", "f.jpg"));
}

#[test]
fn success_status_hands_on_the_acknowledgement() {
    assert_eq!(upload_result(true, 200, "OK".to_string()), Ok("OK".to_string()));
    assert_eq!(upload_result(true, 201, "created".to_string()), Ok("created".to_string()));
    assert_eq!(upload_result(true, 299, String::new()), Ok(String::new()));
}

#[test]
fn other_status_is_an_upload_error_with_the_body() {
    assert_eq!(
        upload_result(true, 403, "bad key".to_string()),
        Err(JobError::Upload("bad key".to_string()))
    );
    assert_eq!(upload_result(true, 199, "x".to_string()), Err(JobError::Upload("x".to_string())));
    assert_eq!(upload_result(true, 300, "y".to_string()), Err(JobError::Upload("y".to_string())));
    assert_eq!(upload_result(true, 500, "z".to_string()), Err(JobError::Upload("z".to_string())));
}

#[test]
fn request_that_did_not_get_through_is_an_upload_error() {
    assert_eq!(
        upload_result(false, 200, "connection reset".to_string()),
        Err(JobError::Upload("connection reset".to_string()))
    );
    assert_eq!(
        upload_result(false, 0, "dns".to_string()),
        Err(JobError::Upload("dns".to_string()))
    );
}

#[test]
fn work_items_that_differ_in_a_number_are_written_differently() {
    let base = WorkItem { sequence: "abc".to_string(), frame: 11, genome_id: 1, genome2_id: 11 };
    let others = vec![
        WorkItem { frame: 1, ..base.clone() },
        WorkItem { frame: 111, ..base.clone() },
        WorkItem { genome_id: 11, ..base.clone() },
        WorkItem { genome2_id: 1, ..base.clone() },
        WorkItem { frame: 1, genome_id: 11, ..base.clone() },
    ];
    for other in others {
        assert_ne!(work_set(&other).unwrap(), work_set(&base).unwrap());
    }
}

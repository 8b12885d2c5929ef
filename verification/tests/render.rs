use electric_oxen::model::Season;
use electric_oxen::model::WorkItem;
use electric_oxen::render::frame_index;
use electric_oxen::render::render_frame;

fn season(name: &str, quality: u32) -> Season {
    Season {
        id: 79,
        name: name.to_string(),
        width: 1920,
        height: 1080,
        quality,
        nframes: 120,
        gid: 244,
        started: Some("2018-05-10 04:56:49 +0200".to_string()),
        ended: None,
        active: true,
        branch: "gpu".to_string(),
    }
}

fn work(sequence: &str, frame: u32) -> WorkItem {
    WorkItem { sequence: sequence.to_string(), frame, genome_id: 1, genome2_id: 1 }
}

#[test]
fn first_frame_is_rendered_as_index_zero() {
    assert_eq!(frame_index(&work("abc", 1)), 0);
}

#[test]
fn render_arguments_are_in_the_renderers_order() {
    let command = render_frame("flames/abc.flame", &season("S1", 50000), &work("abc", 1));
    assert_eq!(
        command.args,
        vec![
            "--in=flames/abc.flame".to_string(),
            "--format=jpg".to_string(),
            "--opencl".to_string(),
            "--priority=-2".to_string(),
            "--quality=50000".to_string(),
            "--sp".to_string(),
            "--prefix=..\\frames\\S1.abc.".to_string(),
            "--supersample=2".to_string(),
            "--frame=0".to_string(),
            "--isaac_seed=fractorium".to_string(),
        ]
    );
    assert_eq!(command.output, "frames\\S1.abc.1.jpg");
}

#[test]
fn frame_index_is_one_less_than_the_frame() {
    assert_eq!(frame_index(&work("abc", 2)), 1);
    assert_eq!(frame_index(&work("abc", 120)), 119);
    assert_eq!(frame_index(&work("abc", u32::MAX)), u32::MAX - 1);
}

#[test]
fn building_the_command_twice_gives_the_same_command() {
    let s = season("S1", 50000);
    let w = work("abc", 7);
    assert_eq!(render_frame("flames/abc.flame", &s, &w), render_frame("flames/abc.flame", &s, &w));
    assert_eq!(render_frame("flames/abc.flame", &s, &w).args[8], "--frame=6");
}

#[test]
fn output_is_named_by_season_sequence_and_frame() {
    let s = season("G244_W1920_H1080_Q50000_KLo56aTAGPU", 50000);
    let w = work("electricsheep.244.00001.01696_electricsheep.244.00001.01696", 12);
    assert_eq!(
        electric_oxen::render::output_file(&s, &w),
        "frames\\G244_W1920_H1080_Q50000_KLo56aTAGPU.electricsheep.244.00001.01696_electricsheep.244.00001.01696.12.jpg"
    );
    let command = render_frame("flames/x.flame", &s, &w);
    assert_eq!(command.output, electric_oxen::render::output_file(&s, &w));
    assert_eq!(
        command.args[6],
        "--prefix=..\\frames\\G244_W1920_H1080_Q50000_KLo56aTAGPU.electricsheep.244.00001.01696_electricsheep.244.00001.01696."
    );
    assert_eq!(command.args[8], "--frame=11");
}

#[test]
fn quality_comes_from_the_season() {
    let command = render_frame("g", &season("S", 123), &work("q", 1));
    assert_eq!(command.args[4], "--quality=123");
    let command = render_frame("g", &season("S", 0), &work("q", 1));
    assert_eq!(command.args[4], "--quality=0");
}

#[test]
fn clean_exit_yields_the_frame_file() {
    let command = render_frame("flames/abc.flame", &season("S1", 50000), &work("abc", 1));
    let r = electric_oxen::render::render_result(command, true, Some(0), "done".to_string());
    assert_eq!(r, Ok("frames\\S1.abc.1.jpg".to_string()));
}

#[test]
fn nonzero_exit_is_a_render_error_with_the_output() {
    let command = render_frame("flames/abc.flame", &season("S1", 50000), &work("abc", 1));
    let r = electric_oxen::render::render_result(command, true, Some(3), "no device".to_string());
    assert_eq!(r, Err(electric_oxen::errors::JobError::Render("no device".to_string())));
}

#[test]
fn killed_renderer_is_a_render_error() {
    let command = render_frame("flames/abc.flame", &season("S1", 50000), &work("abc", 1));
    let r = electric_oxen::render::render_result(command, true, None, "partial".to_string());
    assert_eq!(r, Err(electric_oxen::errors::JobError::Render("partial".to_string())));
}

#[test]
fn renderer_that_did_not_start_is_a_render_error() {
    let command = render_frame("flames/abc.flame", &season("S1", 50000), &work("abc", 1));
    let r = electric_oxen::render::render_result(command, false, Some(0), "not found".to_string());
    assert_eq!(r, Err(electric_oxen::errors::JobError::Render("not found".to_string())));
}

#[test]
fn frame_zero_is_not_renderable() {
    assert!(!work("abc", 0).renderable());
    assert!(work("abc", 1).renderable());
}

#[test]
fn different_frames_of_a_sequence_have_different_files() {
    let s = season("S1", 50000);
    let frames = [1u32, 2, 9, 10, 11, 19, 21, 100, 101, 110, 1000, u32::MAX];
    for first in frames {
        for second in frames {
            let same_file = electric_oxen::render::output_file(&s, &work("abc", first))
                == electric_oxen::render::output_file(&s, &work("abc", second));
            assert_eq!(same_file, first == second);
        }
    }
}

#[test]
fn output_file_is_what_the_prefix_and_the_frame_name() {
    let s = season("S1", 50000);
    let w = work("abc", 12);
    let command = render_frame("flames/abc.flame", &s, &w);
    let prefix = command.args[6].strip_prefix("--prefix=..\\").unwrap().to_string();
    assert_eq!(format!("{}{}.jpg", prefix, 12), command.output);
}

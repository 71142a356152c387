use minicars_supervisor::error::BackendError;
use minicars_supervisor::interpreter::{find_python_command, interpreter_candidates, LocateStep, ProbeOutcome};
use minicars_supervisor::path::BackendPath;
use minicars_supervisor::resolver::{
    candidate_dirs, is_dev_mode, marker_path, resolve_backend_dir, BuildMode, Candidate, SourceInputs,
};

fn path(parts: &[&str]) -> BackendPath {
    BackendPath::from_parts(parts.iter().map(|s| s.to_string()).collect())
}

fn parts(p: &BackendPath) -> Vec<String> {
    p.parts().clone()
}

fn strs(parts: &[&str]) -> Vec<String> {
    parts.iter().map(|s| s.to_string()).collect()
}

fn no_inputs() -> SourceInputs {
    SourceInputs { env_override: None, resource_dir: None, build_dir: None, current_dir: None, exe_dir: None }
}

fn candidate(p: BackendPath, is_dir: bool, has_marker: bool) -> Candidate {
    Candidate { dir: p, is_dir, has_marker }
}

#[test]
fn dev_mode_flag() {
    assert!(is_dev_mode(BuildMode::Development));
    assert!(!is_dev_mode(BuildMode::Production));
}

#[test]
fn path_join_parent_and_last_component() {
    let p = path(&["/", "home", "desktop"]);
    assert_eq!(parts(&p.join("x")), strs(&["/", "home", "desktop", "x"]));
    assert_eq!(parts(&p.parent().unwrap()), strs(&["/", "home"]));
    assert!(path(&[]).parent().is_none());
    assert!(p.ends_with("desktop"));
    assert!(!p.ends_with("home"));
    assert!(!path(&[]).ends_with("desktop"));
}

#[test]
fn marker_is_entry_point_inside_directory() {
    let m = marker_path(&path(&["srv", "backend"]));
    assert_eq!(parts(&m), strs(&["srv", "backend", "main.py"]));
}

#[test]
fn production_candidates_in_priority_order() {
    let inputs = SourceInputs {
        env_override: Some(path(&["/", "override"])),
        resource_dir: Some(path(&["/", "res", "backend"])),
        build_dir: Some(path(&["/", "ws", "desktop", "src-tauri"])),
        current_dir: Some(path(&["/", "cwd"])),
        exe_dir: Some(path(&["/", "opt", "app", "bin"])),
    };
    let got: Vec<Vec<String>> = candidate_dirs(BuildMode::Production, &inputs).iter().map(parts).collect();
    assert_eq!(
        got,
        vec![
            strs(&["/", "override"]),
            strs(&["/", "res", "backend"]),
            strs(&["/", "opt", "app", "bin", "backend"]),
            strs(&["/", "opt", "app", "backend"]),
        ]
    );
}

#[test]
fn development_candidates_in_priority_order() {
    let inputs = SourceInputs {
        env_override: Some(path(&["/", "override"])),
        resource_dir: Some(path(&["/", "res", "backend"])),
        build_dir: Some(path(&["/", "ws", "desktop", "src-tauri"])),
        current_dir: Some(path(&["/", "ws", "desktop"])),
        exe_dir: Some(path(&["/", "opt", "app", "bin"])),
    };
    let got: Vec<Vec<String>> = candidate_dirs(BuildMode::Development, &inputs).iter().map(parts).collect();
    assert_eq!(
        got,
        vec![strs(&["/", "override"]), strs(&["/", "ws", "backend"]), strs(&["/", "ws", "backend"])]
    );
}

#[test]
fn development_cwd_outside_desktop_looks_below_it() {
    let mut inputs = no_inputs();
    inputs.current_dir = Some(path(&["/", "ws"]));
    let got: Vec<Vec<String>> = candidate_dirs(BuildMode::Development, &inputs).iter().map(parts).collect();
    assert_eq!(got, vec![strs(&["/", "ws", "backend"])]);
}

#[test]
fn no_sources_give_no_candidates() {
    assert!(candidate_dirs(BuildMode::Production, &no_inputs()).is_empty());
    assert!(candidate_dirs(BuildMode::Development, &no_inputs()).is_empty());
}

#[test]
fn first_valid_candidate_wins() {
    let cands = vec![
        candidate(path(&["a"]), false, false),
        candidate(path(&["b"]), true, true),
        candidate(path(&["c"]), true, true),
    ];
    let dir = resolve_backend_dir(&cands).unwrap();
    assert_eq!(parts(&dir), strs(&["b"]));
}

#[test]
fn directory_without_marker_is_skipped() {
    let cands = vec![
        candidate(path(&["a"]), true, false),
        candidate(path(&["b"]), false, true),
        candidate(path(&["c"]), true, true),
    ];
    let dir = resolve_backend_dir(&cands).unwrap();
    assert_eq!(parts(&dir), strs(&["c"]));
}

#[test]
fn every_ordering_picks_the_only_valid_candidate() {
    let names = ["x", "y", "z"];
    let orders = [[0, 1, 2], [0, 2, 1], [1, 0, 2], [1, 2, 0], [2, 0, 1], [2, 1, 0]];
    for order in orders.iter() {
        let cands: Vec<Candidate> =
            order.iter().map(|&i| candidate(path(&[names[i]]), true, names[i] == "y")).collect();
        let dir = resolve_backend_dir(&cands).unwrap();
        assert_eq!(parts(&dir), strs(&["y"]));
    }
}

#[test]
fn override_without_marker_is_reported_as_tried() {
    let mut inputs = no_inputs();
    inputs.env_override = Some(path(&["/", "tmp", "empty"]));
    let dirs = candidate_dirs(BuildMode::Production, &inputs);
    let cands: Vec<Candidate> = dirs.into_iter().map(|d| candidate(d, true, false)).collect();
    match resolve_backend_dir(&cands) {
        Err(BackendError::DirectoryNotFound { tried }) => {
            let tried: Vec<Vec<String>> = tried.iter().map(parts).collect();
            assert!(tried.contains(&strs(&["/", "tmp", "empty"])));
            assert_eq!(tried.len(), 1);
        }
        other => panic!("unexpected {:?}", other),
    }
}

#[test]
fn no_valid_candidate_lists_all_in_order() {
    let cands = vec![candidate(path(&["a"]), false, false), candidate(path(&["b"]), true, false)];
    match resolve_backend_dir(&cands) {
        Err(e) => {
            assert_eq!(e.code(), "BACKEND_DIR_NOT_FOUND");
            match e {
                BackendError::DirectoryNotFound { tried } => {
                    let tried: Vec<Vec<String>> = tried.iter().map(parts).collect();
                    assert_eq!(tried, vec![strs(&["a"]), strs(&["b"])]);
                }
                other => panic!("unexpected {:?}", other),
            }
        }
        Ok(p) => panic!("unexpected {:?}", p),
    }
}

#[test]
fn empty_candidate_list_is_not_found() {
    assert!(matches!(resolve_backend_dir(&vec![]), Err(BackendError::DirectoryNotFound { tried }) if tried.is_empty()));
}

#[test]
fn interpreter_candidates_in_order() {
    assert_eq!(interpreter_candidates(), strs(&["python", "py"]));
}

#[test]
fn interpreter_probes_first_candidate_first() {
    assert!(matches!(find_python_command(&vec![]), LocateStep::Probe(c) if c == "python"));
    assert!(matches!(find_python_command(&vec![ProbeOutcome::NotFound]), LocateStep::Probe(c) if c == "py"));
}

#[test]
fn interpreter_first_candidate_found() {
    assert!(matches!(find_python_command(&vec![ProbeOutcome::Ran]), LocateStep::Located(c) if c == "python"));
}

#[test]
fn interpreter_only_second_candidate_executable() {
    let outcomes = vec![ProbeOutcome::NotFound, ProbeOutcome::Ran];
    assert!(matches!(find_python_command(&outcomes), LocateStep::Located(c) if c == "py"));
}

#[test]
fn interpreter_none_executable() {
    let outcomes = vec![ProbeOutcome::NotFound, ProbeOutcome::NotFound];
    assert!(matches!(find_python_command(&outcomes), LocateStep::Missing));
}

#[test]
fn interpreter_other_error_does_not_disqualify() {
    assert!(matches!(find_python_command(&vec![ProbeOutcome::OtherError]), LocateStep::Located(c) if c == "python"));
    let outcomes = vec![ProbeOutcome::NotFound, ProbeOutcome::OtherError];
    assert!(matches!(find_python_command(&outcomes), LocateStep::Located(c) if c == "py"));
}

use dictionay_link_batch::cli::{
    interpret_selection, invalid_input_message, menu_lines, runnable_jobs, take_job, CliError,
    CliInfo, CliInfos, CliServiceImpl, MenuChoice,
};
use dictionay_link_batch::controller::MainController;
use dictionay_link_batch::dtos::SampleProcRequestDto;

fn job(name: &str, enabled: bool) -> CliInfo {
    CliInfo {
        cli_name: name.to_string(),
        enabled,
        dictionary_path: format!("/dict/{}.txt", name),
    }
}

#[test]
fn runnable_jobs_keeps_enabled_entries_in_order() {
    let infos = CliInfos {
        cli_info: vec![job("a", true), job("b", false), job("c", true), job("d", false), job("e", true)],
    };
    let jobs = runnable_jobs(infos).unwrap();
    assert_eq!(jobs, vec![job("a", true), job("c", true), job("e", true)]);
}

#[test]
fn runnable_jobs_fails_without_enabled_entries() {
    let infos = CliInfos { cli_info: vec![job("a", false), job("b", false)] };
    assert_eq!(runnable_jobs(infos).unwrap_err(), CliError::NoRunnableJobs);
    let empty = CliInfos { cli_info: vec![] };
    assert_eq!(runnable_jobs(empty).unwrap_err(), CliError::NoRunnableJobs);
}

#[test]
fn menu_lines_number_jobs_then_exit() {
    let jobs = vec![job("import_words", true), job("link_synonyms", true)];
    let lines = menu_lines(&jobs);
    assert_eq!(
        lines,
        vec![
            "\n=== Dictionary Link Batch ===".to_string(),
            "  1. import_words".to_string(),
            "  2. link_synonyms".to_string(),
            "  3. Exit".to_string(),
        ]
    );
}

#[test]
fn menu_lines_with_two_digit_numbers() {
    let jobs: Vec<CliInfo> = (0..11).map(|i| job(&format!("job{}", i), true)).collect();
    let lines = menu_lines(&jobs);
    assert_eq!(lines.len(), 13);
    assert_eq!(lines[10], "  10. job9");
    assert_eq!(lines[11], "  11. job10");
    assert_eq!(lines[12], "  12. Exit");
}

#[test]
fn menu_numbers_select_their_jobs() {
    let jobs: Vec<CliInfo> = (0..11).map(|i| job(&format!("job{}", i), true)).collect();
    let lines = menu_lines(&jobs);
    for i in 0..jobs.len() {
        let shown = lines[i + 1].trim_start().split('.').next().unwrap().to_string();
        assert_eq!(interpret_selection(jobs.len(), &shown), MenuChoice::Run(i));
    }
    let exit = lines[12].trim_start().split('.').next().unwrap().to_string();
    assert_eq!(interpret_selection(jobs.len(), &exit), MenuChoice::Exit);
}

#[test]
fn invalid_message_names_the_exit_number() {
    assert_eq!(invalid_input_message(2), "Invalid input. Please enter a number between 1 and 3.");
    assert_eq!(invalid_input_message(9), "Invalid input. Please enter a number between 1 and 10.");
}

#[test]
fn interpret_selection_cases() {
    assert_eq!(interpret_selection(2, "1"), MenuChoice::Run(0));
    assert_eq!(interpret_selection(2, "2\n"), MenuChoice::Run(1));
    assert_eq!(interpret_selection(2, "  +2 \r\n"), MenuChoice::Run(1));
    assert_eq!(interpret_selection(2, "3"), MenuChoice::Exit);
    assert_eq!(interpret_selection(2, "3\n"), MenuChoice::Exit);
    assert_eq!(interpret_selection(2, "0"), MenuChoice::Retry);
    assert_eq!(interpret_selection(2, "4"), MenuChoice::Retry);
    assert_eq!(interpret_selection(2, "-1"), MenuChoice::Retry);
    assert_eq!(interpret_selection(2, "abc"), MenuChoice::Retry);
    assert_eq!(interpret_selection(2, ""), MenuChoice::Retry);
    assert_eq!(interpret_selection(2, "1 2"), MenuChoice::Retry);
    assert_eq!(interpret_selection(2, "99999999999999999999999"), MenuChoice::Retry);
    assert_eq!(interpret_selection(0, "1"), MenuChoice::Exit);
}

#[test]
fn surrounding_white_space_does_not_change_choice() {
    for core in ["1", "2", "3", "x", "", "0"] {
        let plain = interpret_selection(2, core);
        for (a, b) in [(" ", "\n"), ("\t", "\r\n"), ("\u{3000}", "\u{85}"), ("", "")] {
            let wrapped = format!("{}{}{}", a, core, b);
            assert_eq!(interpret_selection(2, &wrapped), plain, "input {:?}", wrapped);
        }
    }
}

#[test]
fn take_job_returns_the_selected_entry() {
    let jobs = vec![job("a", true), job("b", true), job("c", true)];
    assert_eq!(take_job(jobs.clone(), 0), job("a", true));
    assert_eq!(take_job(jobs.clone(), 1), job("b", true));
    assert_eq!(take_job(jobs, 2), job("c", true));
}

#[test]
fn cli_service_keeps_its_path() {
    let service = CliServiceImpl::new("conf/cli_infos.toml".to_string());
    assert_eq!(service.toml_path(), "conf/cli_infos.toml");
}

#[test]
fn main_task_succeeds() {
    let controller = MainController::new(1u8, "menu".to_string());
    assert!(controller.main_task().is_ok());
    assert_eq!(*controller.batch_service(), 1u8);
    assert_eq!(controller.cli_service(), "menu");
}

#[test]
fn sample_request_holds_its_parameters() {
    let req = SampleProcRequestDto { input_id: 7, input_name: "word".to_string() };
    assert_eq!(req.input_id, 7);
    assert_eq!(req.input_name, "word");
}

#[test]
fn no_runnable_jobs_message() {
    let infos = CliInfos { cli_info: vec![job("a", false)] };
    assert_eq!(
        runnable_jobs(infos).unwrap_err().message(),
        "[CliServiceImpl::select_batch_job] No runnable batch jobs found (no entries with enabled = true)"
    );
}

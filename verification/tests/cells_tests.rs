use auraed::cell_service::{
    allocate_local, free_local, list_local, validate_allocate_request, validate_free_request,
    CellServiceAllocateRequest, CellServiceFreeRequest,
};
use auraed::cells::{Cell, CellName, CellSpec, Cells};
use auraed::error::{CellsError, ValidationError};
use auraed::names::{check_cell_path, check_executable_name};

fn plain_cell(name: &str) -> Cell {
    Cell {
        name: String::from(name),
        cpu: None,
        cpuset: None,
        memory: None,
        isolate_process: false,
        isolate_network: false,
    }
}

fn plain_spec() -> CellSpec {
    CellSpec {
        cpu: None,
        cpuset: None,
        memory: None,
        isolate_process: false,
        isolate_network: false,
    }
}

fn name(path: &str) -> CellName {
    CellName::validate(Some(String::from(path)), "cell_name").unwrap()
}

fn allocate(cells: &mut Cells, path: &str) -> Result<(), CellsError> {
    cells.allocate(
        name(path),
        plain_spec(),
        format!("/var/run/aurae/{}.sock", path.replace('/', "-")),
        true,
    )
}

#[test]
fn test_list() {
    let mut cells = Cells::new();

    let parent_cell_name = format!("ae-test-{}", uuid::Uuid::new_v4());
    assert!(allocate(&mut cells, &parent_cell_name).is_ok());

    let nested_cell_name = format!("{}/ae-test-{}", &parent_cell_name, uuid::Uuid::new_v4());
    assert!(allocate(&mut cells, &nested_cell_name).is_ok());

    let cell_without_children_name = format!("ae-test-{}", uuid::Uuid::new_v4());
    assert!(allocate(&mut cells, &cell_without_children_name).is_ok());

    let list = list_local(&cells);
    assert_eq!(list.cells.len(), 2);

    let mut expected_root_cell_names = vec![&parent_cell_name, &cell_without_children_name];
    expected_root_cell_names.sort();

    let mut actual_root_cell_names: Vec<&str> =
        list.cells.iter().map(|c| c.cell.name.as_str()).collect();
    actual_root_cell_names.sort();
    assert_eq!(actual_root_cell_names, expected_root_cell_names);

    let parent_cell = list.cells.iter().find(|p| p.cell.name.eq(&parent_cell_name));
    assert!(parent_cell.is_some());

    let expected_nested_cell_names = vec![&nested_cell_name];
    let actual_nested_cell_names: Vec<&str> =
        parent_cell.unwrap().children.iter().map(|c| c.cell.name.as_str()).collect();
    assert_eq!(actual_nested_cell_names, expected_nested_cell_names);
}

#[test]
fn duplicate_allocation_is_rejected() {
    let mut cells = Cells::new();
    allocate(&mut cells, "ae-test-a").unwrap();
    let r = allocate(&mut cells, "ae-test-a");
    assert!(matches!(r, Err(CellsError::CellExists { .. })));
    assert_eq!(cells.len(), 1);
}

#[test]
fn nested_allocation_needs_its_parent() {
    let mut cells = Cells::new();
    let r = allocate(&mut cells, "missing/child");
    assert!(matches!(r, Err(CellsError::ParentCellNotFound { .. })));
    assert_eq!(cells.len(), 0);
}

#[test]
fn free_removes_the_whole_subtree_deepest_first() {
    let mut cells = Cells::new();
    allocate(&mut cells, "a").unwrap();
    allocate(&mut cells, "a/b").unwrap();
    allocate(&mut cells, "a/b/c").unwrap();
    allocate(&mut cells, "other").unwrap();

    let drained = cells.free(&name("a")).unwrap();
    assert_eq!(drained.len(), 3);
    // deepest first: no path may follow one of its ancestors
    assert_eq!(drained[0], "a/b/c");
    assert_eq!(drained[1], "a/b");
    assert_eq!(drained[2], "a");
    assert_eq!(cells.len(), 1);
    assert!(cells.contains(&String::from("other")));
    assert!(!cells.contains(&String::from("a")));
}

#[test]
fn allocate_then_free_leaves_no_trace() {
    let mut cells = Cells::new();
    allocate(&mut cells, "ae-test-gone").unwrap();
    cells.free(&name("ae-test-gone")).unwrap();
    assert!(!cells.contains(&String::from("ae-test-gone")));
    assert_eq!(cells.len(), 0);
}

#[test]
fn free_of_unknown_cell_reports_not_found() {
    let mut cells = Cells::new();
    let r = cells.free(&name("nope"));
    assert!(matches!(r, Err(CellsError::CellNotFound { .. })));
}

#[test]
fn broadcast_free_drains_everything() {
    let mut cells = Cells::new();
    allocate(&mut cells, "a").unwrap();
    allocate(&mut cells, "a/b").unwrap();
    allocate(&mut cells, "c").unwrap();
    let drained = cells.broadcast_free();
    assert_eq!(drained.len(), 3);
    assert_eq!(cells.len(), 0);
    assert_eq!(drained[0], "a/b");
}

#[test]
fn cell_path_validation() {
    assert!(check_cell_path("a"));
    assert!(check_cell_path("ae-test-1/ae_test.2"));
    assert!(!check_cell_path(""));
    assert!(!check_cell_path("/a"));
    assert!(!check_cell_path("a/"));
    assert!(!check_cell_path("a//b"));
    assert!(!check_cell_path("a b"));
    assert!(check_executable_name("exe-1.test_x"));
    assert!(!check_executable_name(""));
    assert!(!check_executable_name("a/b"));
}

#[test]
fn allocate_request_validation_checks_controller_ranges() {
    let mut cell = plain_cell("ae-test-a");
    cell.cpu = Some(auraed::cgroups::CpuController {
        weight: Some(0),
        max: None,
        period: None,
    });
    let r = validate_allocate_request(CellServiceAllocateRequest {
        cell: Some(cell),
        parent_target: None,
    });
    assert!(matches!(r, Err(ValidationError::Invalid { .. })));

    let mut cell = plain_cell("ae-test-a");
    cell.cpu = Some(auraed::cgroups::CpuController {
        weight: Some(100),
        max: Some(250000),
        period: Some(1000000),
    });
    let r = validate_allocate_request(CellServiceAllocateRequest {
        cell: Some(cell),
        parent_target: None,
    });
    assert!(r.is_ok());
    let v = r.unwrap();
    assert_eq!(v.cell_name.as_string(), "ae-test-a");
    assert_eq!(v.cell_spec.cpu.as_ref().unwrap().weight, Some(100));
}

#[test]
fn allocate_local_reports_name_and_hierarchy() {
    let mut cells = Cells::new();
    let v = validate_allocate_request(CellServiceAllocateRequest {
        cell: Some(plain_cell("ae-test-a")),
        parent_target: None,
    })
    .unwrap();
    let resp =
        allocate_local(&mut cells, v, String::from("/run/aurae/ae-test-a.sock"), true).unwrap();
    assert_eq!(resp.cell_name, "ae-test-a");
    assert!(resp.cgroup_v2);
}

#[test]
fn free_handler_hands_back_the_subtree_deepest_first() {
    let mut cells = Cells::new();
    allocate(&mut cells, "a").unwrap();
    allocate(&mut cells, "a/b").unwrap();
    allocate(&mut cells, "a/b/c").unwrap();
    let request = validate_free_request(CellServiceFreeRequest {
        cell_name: Some(String::from("a")),
        parent_target: None,
    })
    .unwrap();
    let drained = free_local(&mut cells, request).unwrap();
    assert_eq!(drained, vec!["a/b/c", "a/b", "a"]);
    assert_eq!(cells.len(), 0);
}

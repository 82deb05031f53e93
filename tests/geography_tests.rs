use epirust::geography::{define_geography, Area, Point};
use epirust::random_wrapper::RandomWrapper;

#[test]
fn lays_out_four_bands() {
    let grid = define_geography(100, "r".to_string());
    assert_eq!(grid.housing_area, Area::new("r".to_string(), Point::new(0, 0), Point::new(39, 100)));
    assert_eq!(grid.transport_area, Area::new("r".to_string(), Point::new(40, 0), Point::new(59, 100)));
    assert_eq!(grid.work_area, Area::new("r".to_string(), Point::new(60, 0), Point::new(79, 100)));
    assert_eq!(grid.hospital_area, Area::new("r".to_string(), Point::new(80, 0), Point::new(89, 100)));
}

#[test]
fn resizes_hospital_to_needed_rows() {
    let mut grid = define_geography(100, "r".to_string());
    // 1000 citizens and 2.2% beds: 22 beds, three rows of ten
    grid.resize_hospital(1000, 22_000, "r".to_string());
    assert_eq!(grid.hospital_area, Area::new("r".to_string(), Point::new(80, 0), Point::new(89, 2)));
}

#[test]
fn no_beds_leave_no_hospital_cell() {
    let mut grid = define_geography(100, "r".to_string());
    grid.resize_hospital(1000, 0, "r".to_string());
    assert_eq!(grid.hospital_area.get_number_of_cells(), 0);
}

#[test]
fn cells_are_numbered_row_by_row() {
    let area = Area::new("r".to_string(), Point::new(2, 5), Point::new(4, 6));
    assert_eq!(area.cell_at(0), Point::new(2, 5));
    assert_eq!(area.cell_at(2), Point::new(4, 5));
    assert_eq!(area.cell_at(3), Point::new(2, 6));
    assert_eq!(area.cell_at(5), Point::new(4, 6));
}

#[test]
fn neighbors_are_clipped_to_the_area() {
    let area = Area::new("r".to_string(), Point::new(0, 0), Point::new(2, 2));
    let corner = area.get_neighbors_of(Point::new(0, 0));
    assert_eq!(corner, vec![Point::new(1, 0), Point::new(0, 1), Point::new(1, 1)]);
    let centre = area.get_neighbors_of(Point::new(1, 1));
    assert_eq!(centre.len(), 8);
    assert!(!centre.contains(&Point::new(1, 1)));
}

#[test]
fn random_points_stay_in_the_area() {
    let area = Area::new("r".to_string(), Point::new(3, 4), Point::new(5, 4));
    let mut rng = RandomWrapper::new();
    for _ in 0..50 {
        let p = area.get_random_point(&mut rng);
        assert!(area.contains(&p));
    }
    assert_eq!(area.get_number_of_cells(), 3);
}

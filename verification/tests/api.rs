use rain_viewer::RequestArguments;

#[should_panic]
#[test]
fn bad_x() {
    let _ = RequestArguments::new_tile(40, 1, 2).unwrap();
}

#[should_panic]
#[test]
fn bad_y() {
    let _ = RequestArguments::new_tile(0, 4, 2).unwrap();
}

#[should_panic]
#[test]
fn bad_size() {
    let _ = RequestArguments::new_tile(0, 4, 2).unwrap().set_size(100);
}

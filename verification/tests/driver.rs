use gl_basics::driver::find_driver;

fn names(list: &[&str]) -> Vec<String> {
    list.iter().map(|name| name.to_string()).collect()
}

#[test]
fn finds_the_opengl_driver() {
    let drivers = names(&["software", "opengl", "opengles2"]);
    assert_eq!(find_driver(&drivers, "opengl"), Some(1));
}

#[test]
fn finds_the_first_of_two_drivers_of_the_same_name() {
    let drivers = names(&["opengl", "metal", "opengl"]);
    assert_eq!(find_driver(&drivers, "opengl"), Some(0));
    assert_eq!(find_driver(&drivers, "metal"), Some(1));
}

#[test]
fn finds_nothing_where_no_driver_has_the_name() {
    assert_eq!(find_driver(&names(&["software", "opengles2"]), "opengl"), None);
    assert_eq!(find_driver(&names(&[]), "opengl"), None);
}

#[test]
fn driver_names_are_compared_whole_and_by_case() {
    let drivers = names(&["opengles2", "OpenGL", "opengl "]);
    assert_eq!(find_driver(&drivers, "opengl"), None);
    assert_eq!(find_driver(&drivers, "OpenGL"), Some(1));
}

use picarus::assets::Assets;

#[test]
fn assets_load_by_path() {
    let a = Assets;
    assert_eq!(a.load("", Some(vec![1])).unwrap(), None);
    assert_eq!(a.load("icons/a.svg", Some(vec![1, 2])).unwrap(), Some(vec![1, 2]));
    assert_eq!(a.load("icons/x.svg", None).unwrap_err(), "could not find asset at path \"icons/x.svg\"");
}

#[test]
fn assets_list_by_folder() {
    let a = Assets;
    let paths = vec![String::from("icons/a.svg"), String::from("fonts/f.ttf"), String::from("icons/b.svg")];
    assert_eq!(a.list(&paths, "icons/"), vec![String::from("icons/a.svg"), String::from("icons/b.svg")]);
    assert_eq!(a.list(&paths, ""), paths);
}

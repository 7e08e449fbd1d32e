use native_engine::linker::Linker;

#[test]
fn executable_names() {
    assert_eq!(Linker::NoLinker.executable(), "");
    assert_eq!(Linker::Clang11.executable(), "clang-11");
    assert_eq!(Linker::Clang10.executable(), "clang-10");
    assert_eq!(Linker::Clang.executable(), "clang");
    assert_eq!(Linker::Gcc.executable(), "gcc");
}

#[test]
fn candidates_in_preference_order() {
    assert_eq!(
        Linker::candidates(true),
        vec![Linker::Clang11, Linker::Clang10, Linker::Clang]
    );
    assert_eq!(Linker::candidates(false), vec![Linker::Gcc]);
}

#[test]
fn select_takes_most_preferred_installed() {
    let c = Linker::candidates(true);
    assert_eq!(Linker::select(&c, &vec![true, true, true]), Some(Linker::Clang11));
    assert_eq!(Linker::select(&c, &vec![false, true, true]), Some(Linker::Clang10));
    assert_eq!(Linker::select(&c, &vec![false, false, true]), Some(Linker::Clang));
    assert_eq!(Linker::select(&c, &vec![true, false, true]), Some(Linker::Clang11));
}

#[test]
fn select_is_deterministic() {
    let c = Linker::candidates(true);
    let installed = vec![false, true, true];
    let first = Linker::select(&c, &installed);
    let second = Linker::select(&c, &installed);
    assert_eq!(first, second);
}

#[test]
fn select_none_installed() {
    let c = Linker::candidates(true);
    assert_eq!(Linker::select(&c, &vec![false, false, false]), None);
    let native = Linker::candidates(false);
    assert_eq!(Linker::select(&native, &vec![false]), None);
    assert_eq!(Linker::select(&native, &vec![true]), Some(Linker::Gcc));
    assert_eq!(Linker::select(&vec![], &vec![]), None);
}

#[test]
fn find_linker_picks_a_candidate() {
    match Linker::find_linker(false) {
        Some(l) => assert_eq!(l, Linker::Gcc),
        None => {}
    }
    match Linker::find_linker(true) {
        Some(l) => assert!(Linker::candidates(true).contains(&l)),
        None => {}
    }
}

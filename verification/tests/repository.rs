use rusthacking::models::{RepoError, Repository, Service};
use rusthacking::InMemoryRepo;

fn record_one() -> Service {
    Service {
        id: 1,
        name: "Locate Us".to_string(),
        description: "Awesomeness is HERE!".to_string(),
        versions: 3,
    }
}

fn record_two() -> Service {
    Service {
        id: 2,
        name: "Contact Us".to_string(),
        description: "How can I find you?!".to_string(),
        versions: 2,
    }
}

fn seeded_repo() -> InMemoryRepo {
    InMemoryRepo::new(vec![record_one(), record_two()])
}

#[test]
fn seeded_get_present() {
    let repo = seeded_repo();
    let got = repo.service(1).expect("id 1 is stored");
    assert_eq!(got.name, "Locate Us");
    assert_eq!(got, record_one());
    let got2 = repo.service(2).expect("id 2 is stored");
    assert_eq!(got2, record_two());
}

#[test]
fn seeded_get_absent() {
    let repo = seeded_repo();
    match repo.service(3) {
        Err(RepoError::Missing) => {}
        other => panic!("expected Missing, got {:?}", other),
    }
}

#[test]
fn seeded_list_exact() {
    let repo = seeded_repo();
    let all = repo.services().expect("listing never fails in memory");
    assert_eq!(all, vec![record_one(), record_two()]);
}

#[test]
fn list_has_no_duplicate_ids() {
    let repo = seeded_repo();
    let all = repo.services().unwrap();
    for i in 0..all.len() {
        for j in 0..all.len() {
            if i != j {
                assert_ne!(all[i].id, all[j].id);
            }
        }
    }
}

#[test]
fn get_is_idempotent() {
    let repo = seeded_repo();
    let first = repo.service(1);
    let second = repo.service(1);
    assert_eq!(first, second);
    let first_absent = repo.service(9);
    let second_absent = repo.service(9);
    assert_eq!(first_absent, second_absent);
}

#[test]
fn empty_repo_misses_every_id() {
    let repo = InMemoryRepo::new(Vec::new());
    for id in [0u32, 1, 2, 41, u32::MAX] {
        match repo.service(id) {
            Err(RepoError::Missing) => {}
            other => panic!("expected Missing for {}, got {:?}", id, other),
        }
    }
    assert_eq!(repo.services().unwrap(), Vec::new());
}

#[test]
fn wrappers_forward_unchanged() {
    let mut repo = seeded_repo();
    let direct_list = repo.services().unwrap();
    let direct_one = repo.service(1);
    let direct_absent = repo.service(3);

    let shared = &repo;
    let through_ref = <&InMemoryRepo as Repository>::services(&shared).unwrap();
    assert_eq!(through_ref, direct_list);
    assert_eq!(<&InMemoryRepo as Repository>::service(&shared, 1), direct_one);
    assert_eq!(<&InMemoryRepo as Repository>::service(&shared, 3), direct_absent);

    {
        let exclusive = &mut repo;
        let through_mut = <&mut InMemoryRepo as Repository>::services(&exclusive).unwrap();
        assert_eq!(through_mut, direct_list);
        assert_eq!(<&mut InMemoryRepo as Repository>::service(&exclusive, 1), direct_one);
        assert_eq!(<&mut InMemoryRepo as Repository>::service(&exclusive, 3), direct_absent);
    }

    let boxed: Box<InMemoryRepo> = Box::new(repo);
    assert_eq!(boxed.services().unwrap(), direct_list);
    assert_eq!(boxed.service(1), direct_one);
    assert_eq!(boxed.service(3), direct_absent);

    let handle = std::sync::Arc::new(seeded_repo());
    assert_eq!((&*handle).services().unwrap(), direct_list);
    assert_eq!((&*handle).service(1), direct_one);
    assert_eq!((&*handle).service(3), direct_absent);
}

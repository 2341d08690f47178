use escrow_program::address::Address;
use escrow_program::contract_manager::{
    add_version, find_version, initialize, mark_recommended, remove_recommended, update_version,
    BugLevel, Contract, ContractManager, ContractManagerError, ContractStatus, Version,
};

fn key(n: u8) -> Address {
    Address { bytes: [n; 32] }
}

fn name(text: &str) -> String {
    String::from(text)
}

fn registry() -> ContractManager {
    let mut m = initialize(key(1), 7);
    add_version(&mut m, &key(1), name("escrow"), name("1.0"), ContractStatus::Beta, key(50), 100)
        .unwrap();
    add_version(&mut m, &key(1), name("escrow"), name("1.1"), ContractStatus::Production, key(51), 200)
        .unwrap();
    add_version(&mut m, &key(1), name("pool"), name("0.1"), ContractStatus::Beta, key(60), 300)
        .unwrap();
    m
}

#[test]
fn initialized_registry_is_empty() {
    let m = initialize(key(1), 7);
    assert_eq!(m, ContractManager { authority: key(1), contracts: vec![], bump: 7 });
    let d = ContractManager::default();
    assert_eq!(d, ContractManager { authority: key(0), contracts: vec![], bump: 0 });
}

#[test]
fn versions_are_added_in_order() {
    let m = registry();
    assert_eq!(m.contracts.len(), 2);
    assert_eq!(
        m.contracts[0],
        Contract {
            contract_name: name("escrow"),
            versions: vec![
                Version {
                    version_name: name("1.0"),
                    status: ContractStatus::Beta,
                    bug_level: BugLevel::NoBug,
                    program_id: key(50),
                    date_added: 100,
                },
                Version {
                    version_name: name("1.1"),
                    status: ContractStatus::Production,
                    bug_level: BugLevel::NoBug,
                    program_id: key(51),
                    date_added: 200,
                },
            ],
            recommended_version: None,
        }
    );
    assert_eq!(m.get_versions(&name("pool")).map(|v| v.len()), Some(1));
    assert_eq!(m.get_versions(&name("other")), None);
    assert_eq!(m.find_contract(&name("pool")).map(|c| c.contract_name.clone()), Some(name("pool")));
    assert_eq!(m.find_contract_index(&name("pool")), Some(1));
    assert_eq!(m.find_contract_index(&name("")), None);
    assert_eq!(find_version(&m.contracts[0].versions, &name("1.1")), Some(1));
    assert_eq!(find_version(&m.contracts[0].versions, &name("2.0")), None);
}

#[test]
fn add_version_refusals_leave_the_registry_alone() {
    let mut m = registry();
    let before = m.clone();
    let run = |m: &mut ContractManager, signer: u8, c: &str, v: &str, program: u8| {
        add_version(m, &key(signer), name(c), name(v), ContractStatus::Beta, key(program), 1)
    };
    assert_eq!(run(&mut m, 2, "escrow", "2.0", 50), Err(ContractManagerError::Unauthorized));
    assert_eq!(run(&mut m, 1, "", "2.0", 50), Err(ContractManagerError::EmptyContractName));
    assert_eq!(run(&mut m, 1, "escrow", "", 50), Err(ContractManagerError::EmptyVersionName));
    assert_eq!(run(&mut m, 1, "escrow", "2.0", 0), Err(ContractManagerError::InvalidProgramId));
    assert_eq!(run(&mut m, 1, "escrow", "1.0", 50), Err(ContractManagerError::VersionAlreadyExists));
    assert_eq!(m, before);
    assert_eq!(run(&mut m, 1, "pool", "1.0", 50), Ok(()));
    assert_eq!(m.contracts[1].versions.len(), 2);
}

#[test]
fn update_sets_status_and_bug_level() {
    let mut m = registry();
    assert_eq!(
        update_version(
            &mut m,
            &key(1),
            name("escrow"),
            name("1.0"),
            ContractStatus::Deprecated,
            BugLevel::Critical
        ),
        Ok(())
    );
    let v = &m.contracts[0].versions[0];
    assert_eq!((v.status, v.bug_level), (ContractStatus::Deprecated, BugLevel::Critical));
    assert_eq!((v.program_id, v.date_added), (key(50), 100));
    assert_eq!(m.contracts[0].versions[1].status, ContractStatus::Production);
    let before = m.clone();
    assert_eq!(
        update_version(&mut m, &key(1), name("none"), name("1.0"), ContractStatus::Beta, BugLevel::Low),
        Err(ContractManagerError::ContractNotFound)
    );
    assert_eq!(
        update_version(&mut m, &key(1), name("escrow"), name("9"), ContractStatus::Beta, BugLevel::Low),
        Err(ContractManagerError::VersionNotFound)
    );
    assert_eq!(
        update_version(&mut m, &key(9), name("escrow"), name("1.0"), ContractStatus::Beta, BugLevel::Low),
        Err(ContractManagerError::Unauthorized)
    );
    assert_eq!(m, before);
}

#[test]
fn recommendation_is_marked_and_removed() {
    let mut m = registry();
    assert_eq!(m.get_recommended_version(&name("escrow")), None);
    assert_eq!(mark_recommended(&mut m, &key(1), name("escrow"), name("1.1")), Ok(()));
    assert_eq!(m.contracts[0].recommended_version, Some(name("1.1")));
    assert_eq!(
        m.get_recommended_version(&name("escrow")).map(|v| v.program_id),
        Some(key(51))
    );
    assert_eq!(m.get_recommended_version(&name("pool")), None);
    assert_eq!(m.get_recommended_version(&name("none")), None);
    assert_eq!(
        mark_recommended(&mut m, &key(1), name("escrow"), name("3.0")),
        Err(ContractManagerError::VersionNotFound)
    );
    assert_eq!(
        mark_recommended(&mut m, &key(1), name("none"), name("1.1")),
        Err(ContractManagerError::ContractNotFound)
    );
    assert_eq!(
        mark_recommended(&mut m, &key(2), name("escrow"), name("1.0")),
        Err(ContractManagerError::Unauthorized)
    );
    assert_eq!(
        remove_recommended(&mut m, &key(2), name("escrow")),
        Err(ContractManagerError::Unauthorized)
    );
    assert_eq!(
        remove_recommended(&mut m, &key(1), name("none")),
        Err(ContractManagerError::ContractNotFound)
    );
    assert_eq!(m.contracts[0].recommended_version, Some(name("1.1")));
    assert_eq!(remove_recommended(&mut m, &key(1), name("escrow")), Ok(()));
    assert_eq!(m.contracts[0].recommended_version, None);
    assert_eq!(m.get_recommended_version(&name("escrow")), None);
}

#[test]
fn a_recommended_name_without_a_version_finds_nothing() {
    let mut m = registry();
    m.contracts[1].recommended_version = Some(name("gone"));
    assert_eq!(m.get_recommended_version(&name("pool")), None);
}

#[test]
fn added_contracts_are_found_by_name() {
    let mut m = initialize(key(1), 0);
    m.add_contract(Contract {
        contract_name: name("a"),
        versions: vec![],
        recommended_version: None,
    });
    m.add_contract(Contract {
        contract_name: name("a"),
        versions: vec![Version {
            version_name: name("1"),
            status: ContractStatus::ReleaseCandidate,
            bug_level: BugLevel::Medium,
            program_id: key(2),
            date_added: 0,
        }],
        recommended_version: None,
    });
    // The first of two contracts with one name is the one that is found.
    assert_eq!(m.find_contract_index(&name("a")), Some(0));
    assert_eq!(m.get_versions(&name("a")).map(|v| v.len()), Some(0));
}

#[test]
fn a_found_contract_is_changed_in_place() {
    let mut m = registry();
    let before = m.clone();
    m.find_contract_mut(&name("pool")).unwrap().recommended_version = Some(name("0.1"));
    assert_eq!(m.contracts[1].recommended_version, Some(name("0.1")));
    assert_eq!(m.contracts[0], before.contracts[0]);
    assert_eq!(m.authority, before.authority);
    assert!(m.find_contract_mut(&name("none")).is_none());
}

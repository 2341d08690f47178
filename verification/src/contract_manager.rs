//! The registry of contract versions: for each contract its versions, with
//! their status and known bug level, and the version that is recommended.

use vstd::prelude::*;
use crate::address::{Address, SYSTEM_PROGRAM_ID};

verus! {

/// How far a version has come.
#[derive(Clone, Copy, Debug, PartialEq, Eq, Structural)]
pub enum ContractStatus {
    Beta,
    ReleaseCandidate,
    Production,
    Deprecated,
}

/// How bad the worst known bug of a version is.
#[derive(Clone, Copy, Debug, PartialEq, Eq, Structural)]
pub enum BugLevel {
    NoBug,
    Low,
    Medium,
    High,
    Critical,
}

/// Why the registry refuses an operation.
#[derive(Clone, Copy, Debug, PartialEq, Eq, Structural)]
pub enum ContractManagerError {
    EmptyContractName,
    EmptyVersionName,
    ContractAlreadyExists,
    VersionAlreadyExists,
    ContractNotFound,
    VersionNotFound,
    NoRecommendedVersion,
    InvalidProgramId,
    Unauthorized,
    NotInitialized,
}

/// One version of a contract.
#[derive(Clone, Debug, PartialEq, Eq)]
pub struct Version {
    pub version_name: String,
    pub status: ContractStatus,
    pub bug_level: BugLevel,
    pub program_id: Address,
    pub date_added: i64,
}

/// A contract with its versions.
#[derive(Clone, Debug, PartialEq, Eq)]
pub struct Contract {
    pub contract_name: String,
    pub versions: Vec<Version>,
    pub recommended_version: Option<String>,
}

/// The registry.
#[derive(Clone, Debug, PartialEq, Eq)]
pub struct ContractManager {
    pub authority: Address,
    pub contracts: Vec<Contract>,
    pub bump: u8,
}

/// A version, with its name as text.
pub struct VersionView {
    pub version_name: Seq<char>,
    pub status: ContractStatus,
    pub bug_level: BugLevel,
    pub program_id: Address,
    pub date_added: i64,
}

/// A contract, with its names as text and its versions as a sequence.
pub struct ContractView {
    pub contract_name: Seq<char>,
    pub versions: Seq<VersionView>,
    pub recommended_version: Option<Seq<char>>,
}

/// The registry, with its contracts as a sequence.
pub struct ManagerView {
    pub authority: Address,
    pub contracts: Seq<ContractView>,
    pub bump: u8,
}

impl View for Version {
    type V = VersionView;

    open spec fn view(&self) -> VersionView {
        VersionView {
            version_name: self.version_name@,
            status: self.status,
            bug_level: self.bug_level,
            program_id: self.program_id,
            date_added: self.date_added,
        }
    }
}

impl View for Contract {
    type V = ContractView;

    open spec fn view(&self) -> ContractView {
        ContractView {
            contract_name: self.contract_name@,
            versions: self.versions@.map_values(|v: Version| v@),
            recommended_version: match self.recommended_version {
                Some(name) => Some(name@),
                None => None,
            },
        }
    }
}

impl View for ContractManager {
    type V = ManagerView;

    open spec fn view(&self) -> ManagerView {
        ManagerView {
            authority: self.authority,
            contracts: self.contracts@.map_values(|c: Contract| c@),
            bump: self.bump,
        }
    }
}

/// The index of the first contract named `name`, or the number of contracts
/// if there is none.
pub open spec fn contract_index(contracts: Seq<ContractView>, name: Seq<char>) -> int
    decreases contracts.len(),
{
    if contracts.len() == 0 || contracts[0].contract_name == name {
        0
    } else {
        1 + contract_index(contracts.drop_first(), name)
    }
}

/// The index of the first version named `name`, or the number of versions if
/// there is none.
pub open spec fn version_index(versions: Seq<VersionView>, name: Seq<char>) -> int
    decreases versions.len(),
{
    if versions.len() == 0 || versions[0].version_name == name {
        0
    } else {
        1 + version_index(versions.drop_first(), name)
    }
}

/// The index of the first contract named `name` is within the list exactly
/// when there is such a contract; no contract before it has the name.
pub proof fn lemma_contract_index(contracts: Seq<ContractView>, name: Seq<char>)
    ensures
        0 <= contract_index(contracts, name) <= contracts.len(),
        contract_index(contracts, name) < contracts.len() ==> contracts[contract_index(
            contracts,
            name,
        )].contract_name == name,
        forall|j: int|
            0 <= j < contract_index(contracts, name) ==> contracts[j].contract_name != name,
    decreases contracts.len(),
{
    if contracts.len() == 0 || contracts[0].contract_name == name {
    } else {
        let rest = contracts.drop_first();
        lemma_contract_index(rest, name);
        assert forall|j: int| 0 <= j < contract_index(contracts, name) implies contracts[j].contract_name
            != name by {
            if j > 0 {
                assert(contracts[j] == rest[j - 1]);
            }
        }
    }
}

/// The index of the first version named `name` is within the list exactly
/// when there is such a version; no version before it has the name.
pub proof fn lemma_version_index(versions: Seq<VersionView>, name: Seq<char>)
    ensures
        0 <= version_index(versions, name) <= versions.len(),
        version_index(versions, name) < versions.len() ==> versions[version_index(
            versions,
            name,
        )].version_name == name,
        forall|j: int| 0 <= j < version_index(versions, name) ==> versions[j].version_name != name,
    decreases versions.len(),
{
    if versions.len() == 0 || versions[0].version_name == name {
    } else {
        let rest = versions.drop_first();
        lemma_version_index(rest, name);
        assert forall|j: int| 0 <= j < version_index(versions, name) implies versions[j].version_name
            != name by {
            if j > 0 {
                assert(versions[j] == rest[j - 1]);
            }
        }
    }
}

/// An index is that of the first contract named `name` if that contract has
/// the name and none before it has.
pub proof fn lemma_first_contract(contracts: Seq<ContractView>, name: Seq<char>, i: int)
    requires
        0 <= i <= contracts.len(),
        i < contracts.len() ==> contracts[i].contract_name == name,
        forall|j: int| 0 <= j < i ==> contracts[j].contract_name != name,
    ensures
        contract_index(contracts, name) == i,
    decreases contracts.len(),
{
    if i > 0 {
        let rest = contracts.drop_first();
        assert forall|j: int| 0 <= j < i - 1 implies rest[j].contract_name != name by {
            assert(rest[j] == contracts[j + 1]);
        }
        lemma_first_contract(rest, name, i - 1);
    }
}

/// An index is that of the first version named `name` if that version has
/// the name and none before it has.
pub proof fn lemma_first_version(versions: Seq<VersionView>, name: Seq<char>, i: int)
    requires
        0 <= i <= versions.len(),
        i < versions.len() ==> versions[i].version_name == name,
        forall|j: int| 0 <= j < i ==> versions[j].version_name != name,
    ensures
        version_index(versions, name) == i,
    decreases versions.len(),
{
    if i > 0 {
        let rest = versions.drop_first();
        assert forall|j: int| 0 <= j < i - 1 implies rest[j].version_name != name by {
            assert(rest[j] == versions[j + 1]);
        }
        lemma_first_version(rest, name, i - 1);
    }
}

/// Finds the first version named `name`.
pub fn find_version(versions: &Vec<Version>, name: &String) -> (r: Option<usize>)
    ensures
        match r {
            Some(i) => i < versions.len() && i == version_index(
                versions@.map_values(|v: Version| v@),
                name@,
            ),
            None => version_index(versions@.map_values(|v: Version| v@), name@) == versions.len(),
        },
{
    let ghost views = versions@.map_values(|v: Version| v@);
    let mut i: usize = 0;
    while i < versions.len()
        invariant
            i <= versions.len(),
            views == versions@.map_values(|v: Version| v@),
            forall|j: int| 0 <= j < i ==> views[j].version_name != name@,
        decreases versions.len() - i,
    {
        if versions[i].version_name == *name {
            proof {
                lemma_first_version(views, name@, i as int);
            }
            return Some(i);
        }
        i += 1;
    }
    proof {
        lemma_first_version(views, name@, i as int);
    }
    None
}

impl ContractManager {
    /// The room that the registry's account has.
    pub const LEN: usize = 1069;

    /// Finds the index of the first contract named `contract_name`.
    pub fn find_contract_index(&self, contract_name: &String) -> (r: Option<usize>)
        ensures
            match r {
                Some(i) => i < self.contracts.len() && i == contract_index(
                    self@.contracts,
                    contract_name@,
                ),
                None => contract_index(self@.contracts, contract_name@) == self.contracts.len(),
            },
    {
        let ghost views = self@.contracts;
        let mut i: usize = 0;
        while i < self.contracts.len()
            invariant
                i <= self.contracts.len(),
                views == self.contracts@.map_values(|c: Contract| c@),
                forall|j: int| 0 <= j < i ==> views[j].contract_name != contract_name@,
            decreases self.contracts.len() - i,
        {
            if self.contracts[i].contract_name == *contract_name {
                proof {
                    lemma_first_contract(views, contract_name@, i as int);
                }
                return Some(i);
            }
            i += 1;
        }
        proof {
            lemma_first_contract(views, contract_name@, i as int);
        }
        None
    }

    /// Finds the first contract named `contract_name`.
    pub fn find_contract(&self, contract_name: &String) -> (r: Option<&Contract>)
        ensures
            match r {
                Some(c) => contract_index(self@.contracts, contract_name@) < self.contracts.len()
                    && *c == self.contracts@[contract_index(self@.contracts, contract_name@)],
                None => contract_index(self@.contracts, contract_name@) == self.contracts.len(),
            },
    {
        match self.find_contract_index(contract_name) {
            Some(i) => Some(&self.contracts[i]),
            None => None,
        }
    }

    /// Finds the first contract named `contract_name`, to be changed in place:
    /// what the caller makes of it takes its place in the registry, and
    /// nothing else changes.
    pub fn find_contract_mut(&mut self, contract_name: &String) -> (r: Option<&mut Contract>)
        ensures
            match r {
                Some(c) => {
                    let i = contract_index(old(self)@.contracts, contract_name@);
                    &&& i < old(self).contracts@.len()
                    &&& *c == old(self).contracts@[i]
                    &&& final(self).contracts@ == old(self).contracts@.update(i, *final(c))
                    &&& final(self).authority == old(self).authority
                    &&& final(self).bump == old(self).bump
                },
                None => contract_index(old(self)@.contracts, contract_name@) == old(
                    self,
                ).contracts@.len() && *final(self) == *old(self),
            },
    {
        proof {
            lemma_contract_index(self@.contracts, contract_name@);
        }
        match self.find_contract_index(contract_name) {
            Some(i) => Some(&mut self.contracts[i]),
            None => None,
        }
    }

    /// Appends a contract to the registry.
    pub fn add_contract(&mut self, contract: Contract)
        ensures
            final(self).contracts@ == old(self).contracts@.push(contract),
            final(self).authority == old(self).authority,
            final(self).bump == old(self).bump,
    {
        self.contracts.push(contract);
    }

    /// The recommended version of the contract named `contract_name`: the
    /// first of its versions that bears the recommended name. `None` if there
    /// is no such contract, no recommendation, or no version of that name.
    pub fn get_recommended_version(&self, contract_name: &String) -> (r: Option<&Version>)
        ensures
            r.is_some() <==> ({
                let i = contract_index(self@.contracts, contract_name@);
                &&& i < self.contracts.len()
                &&& self@.contracts[i].recommended_version matches Some(name)
                &&& version_index(self@.contracts[i].versions, name) < self@.contracts[i].versions.len()
            }),
            r matches Some(v) ==> ({
                let c = self.contracts@[contract_index(self@.contracts, contract_name@)];
                *v == c.versions@[version_index(c@.versions, c@.recommended_version.unwrap())]
            }),
    {
        proof {
            lemma_contract_index(self@.contracts, contract_name@);
        }
        match self.find_contract(contract_name) {
            Some(contract) => {
                assert(self@.contracts[contract_index(self@.contracts, contract_name@)]
                    == contract@);
                match &contract.recommended_version {
                    Some(recommended_name) => {
                        proof {
                            lemma_version_index(contract@.versions, recommended_name@);
                        }
                        match find_version(&contract.versions, recommended_name) {
                            Some(k) => Some(&contract.versions[k]),
                            None => None,
                        }
                    },
                    None => None,
                }
            },
            None => None,
        }
    }

    /// The versions of the contract named `contract_name`.
    pub fn get_versions(&self, contract_name: &String) -> (r: Option<&Vec<Version>>)
        ensures
            match r {
                Some(versions) => contract_index(self@.contracts, contract_name@)
                    < self.contracts.len() && *versions == self.contracts@[contract_index(
                    self@.contracts,
                    contract_name@,
                )].versions,
                None => contract_index(self@.contracts, contract_name@) == self.contracts.len(),
            },
    {
        match self.find_contract(contract_name) {
            Some(contract) => Some(&contract.versions),
            None => None,
        }
    }
}

impl Default for ContractManager {
    /// The registry of an account that has not been initialized.
    fn default() -> (m: ContractManager)
        ensures
            m.contracts@.len() == 0,
            m.bump == 0,
            forall|i: int| 0 <= i < 32 ==> m.authority@[i] == 0,
    {
        ContractManager { authority: Address { bytes: [0u8; 32] }, contracts: Vec::new(), bump: 0 }
    }
}

/// The registry of a freshly initialized account: no contracts, under `authority`.
pub fn initialize(authority: Address, bump: u8) -> (m: ContractManager)
    ensures
        m@ == (ManagerView { authority, contracts: Seq::<ContractView>::empty(), bump }),
{
    let m = ContractManager { authority, contracts: Vec::new(), bump };
    assert(m@.contracts =~= Seq::<ContractView>::empty());
    m
}

/// The registry after a version has been added, or why it is refused. Only
/// the authority may change the registry (`Unauthorized`); the names must not
/// be empty (`EmptyContractName`, `EmptyVersionName`); the program must not be
/// the all-zero address (`InvalidProgramId`); and the contract must not have a
/// version of that name yet (`VersionAlreadyExists`). A contract that is not
/// in the registry yet is appended with this one version; else the version is
/// appended to the contract's versions. A new version has no known bug.
pub open spec fn version_added(
    m: ManagerView,
    signer: Address,
    contract_name: Seq<char>,
    version_name: Seq<char>,
    status: ContractStatus,
    program_id: Address,
    now: i64,
) -> Result<ManagerView, ContractManagerError> {
    let i = contract_index(m.contracts, contract_name);
    let version = VersionView {
        version_name,
        status,
        bug_level: BugLevel::NoBug,
        program_id,
        date_added: now,
    };
    if signer != m.authority {
        Err(ContractManagerError::Unauthorized)
    } else if contract_name.len() == 0 {
        Err(ContractManagerError::EmptyContractName)
    } else if version_name.len() == 0 {
        Err(ContractManagerError::EmptyVersionName)
    } else if program_id@ == SYSTEM_PROGRAM_ID@ {
        Err(ContractManagerError::InvalidProgramId)
    } else if i == m.contracts.len() {
        Ok(
            ManagerView {
                contracts: m.contracts.push(
                    ContractView { contract_name, versions: seq![version], recommended_version: None },
                ),
                ..m
            },
        )
    } else if version_index(m.contracts[i].versions, version_name) < m.contracts[i].versions.len() {
        Err(ContractManagerError::VersionAlreadyExists)
    } else {
        Ok(
            ManagerView {
                contracts: m.contracts.update(
                    i,
                    ContractView {
                        versions: m.contracts[i].versions.push(version),
                        ..m.contracts[i]
                    },
                ),
                ..m
            },
        )
    }
}

/// Adds a version of a contract to the registry. A refused operation leaves
/// the registry as it was.
pub fn add_version(
    manager: &mut ContractManager,
    signer: &Address,
    contract_name: String,
    version_name: String,
    status: ContractStatus,
    program_id: Address,
    now: i64,
) -> (r: Result<(), ContractManagerError>)
    ensures
        match r {
            Ok(_) => version_added(
                old(manager)@,
                *signer,
                contract_name@,
                version_name@,
                status,
                program_id,
                now,
            ) == Ok::<ManagerView, ContractManagerError>(final(manager)@),
            Err(e) => version_added(
                old(manager)@,
                *signer,
                contract_name@,
                version_name@,
                status,
                program_id,
                now,
            ) == Err::<ManagerView, ContractManagerError>(e) && *final(manager) == *old(manager),
        },
{
    if *signer != manager.authority {
        return Err(ContractManagerError::Unauthorized);
    }
    let empty = String::new();
    if contract_name == empty {
        assert(contract_name@ =~= Seq::<char>::empty());
        return Err(ContractManagerError::EmptyContractName);
    }
    assert(contract_name@.len() != 0) by {
        if contract_name@.len() == 0 {
            assert(contract_name@ =~= Seq::<char>::empty());
        }
    }
    if version_name == empty {
        assert(version_name@ =~= Seq::<char>::empty());
        return Err(ContractManagerError::EmptyVersionName);
    }
    assert(version_name@.len() != 0) by {
        if version_name@.len() == 0 {
            assert(version_name@ =~= Seq::<char>::empty());
        }
    }
    if program_id.is(&SYSTEM_PROGRAM_ID) {
        return Err(ContractManagerError::InvalidProgramId);
    }
    let ghost before = manager@;
    let new_version = Version {
        version_name,
        status,
        bug_level: BugLevel::NoBug,
        program_id,
        date_added: now,
    };
    let ghost added = new_version@;
    match manager.find_contract_index(&contract_name) {
        None => {
            let mut versions: Vec<Version> = Vec::new();
            versions.push(new_version);
            let contract = Contract { contract_name, versions, recommended_version: None };
            assert(contract@.versions =~= seq![added]);
            manager.contracts.push(contract);
            assert(manager@.contracts =~= before.contracts.push(contract@));
            Ok(())
        },
        Some(i) => {
            proof {
                lemma_version_index(before.contracts[i as int].versions, new_version.version_name@);
            }
            if find_version(&manager.contracts[i].versions, &new_version.version_name).is_some() {
                return Err(ContractManagerError::VersionAlreadyExists);
            }
            manager.contracts[i].versions.push(new_version);
            proof {
                let after = manager@.contracts[i as int];
                assert(after.versions =~= before.contracts[i as int].versions.push(added));
                assert(manager@.contracts =~= before.contracts.update(
                    i as int,
                    ContractView {
                        versions: before.contracts[i as int].versions.push(added),
                        ..before.contracts[i as int]
                    },
                ));
            }
            Ok(())
        },
    }
}

/// The registry after a version has been given a new status and bug level,
/// or why it is refused: only the authority may change the registry
/// (`Unauthorized`), and the contract and the version must be in it
/// (`ContractNotFound`, `VersionNotFound`).
pub open spec fn version_updated(
    m: ManagerView,
    signer: Address,
    contract_name: Seq<char>,
    version_name: Seq<char>,
    status: ContractStatus,
    bug_level: BugLevel,
) -> Result<ManagerView, ContractManagerError> {
    let i = contract_index(m.contracts, contract_name);
    if signer != m.authority {
        Err(ContractManagerError::Unauthorized)
    } else if i == m.contracts.len() {
        Err(ContractManagerError::ContractNotFound)
    } else {
        let k = version_index(m.contracts[i].versions, version_name);
        if k == m.contracts[i].versions.len() {
            Err(ContractManagerError::VersionNotFound)
        } else {
            Ok(
                ManagerView {
                    contracts: m.contracts.update(
                        i,
                        ContractView {
                            versions: m.contracts[i].versions.update(
                                k,
                                VersionView { status, bug_level, ..m.contracts[i].versions[k] },
                            ),
                            ..m.contracts[i]
                        },
                    ),
                    ..m
                },
            )
        }
    }
}

/// Sets the status and the bug level of a version.
pub fn update_version(
    manager: &mut ContractManager,
    signer: &Address,
    contract_name: String,
    version_name: String,
    status: ContractStatus,
    bug_level: BugLevel,
) -> (r: Result<(), ContractManagerError>)
    ensures
        match r {
            Ok(_) => version_updated(
                old(manager)@,
                *signer,
                contract_name@,
                version_name@,
                status,
                bug_level,
            ) == Ok::<ManagerView, ContractManagerError>(final(manager)@),
            Err(e) => version_updated(
                old(manager)@,
                *signer,
                contract_name@,
                version_name@,
                status,
                bug_level,
            ) == Err::<ManagerView, ContractManagerError>(e) && *final(manager) == *old(manager),
        },
{
    if *signer != manager.authority {
        return Err(ContractManagerError::Unauthorized);
    }
    let ghost before = manager@;
    let i = match manager.find_contract_index(&contract_name) {
        Some(i) => i,
        None => {
            return Err(ContractManagerError::ContractNotFound);
        },
    };
    let k = match find_version(&manager.contracts[i].versions, &version_name) {
        Some(k) => k,
        None => {
            return Err(ContractManagerError::VersionNotFound);
        },
    };
    manager.contracts[i].versions[k].status = status;
    manager.contracts[i].versions[k].bug_level = bug_level;
    proof {
        let old_versions = before.contracts[i as int].versions;
        let new_versions = old_versions.update(
            k as int,
            VersionView { status, bug_level, ..old_versions[k as int] },
        );
        assert(manager@.contracts[i as int].versions =~= new_versions);
        assert(manager@.contracts =~= before.contracts.update(
            i as int,
            ContractView { versions: new_versions, ..before.contracts[i as int] },
        ));
    }
    Ok(())
}

/// The registry after a version has been marked as recommended, or why it is
/// refused: only the authority may change the registry (`Unauthorized`), and
/// the contract and the version must be in it (`ContractNotFound`, `VersionNotFound`).
pub open spec fn recommended_marked(
    m: ManagerView,
    signer: Address,
    contract_name: Seq<char>,
    version_name: Seq<char>,
) -> Result<ManagerView, ContractManagerError> {
    let i = contract_index(m.contracts, contract_name);
    if signer != m.authority {
        Err(ContractManagerError::Unauthorized)
    } else if i == m.contracts.len() {
        Err(ContractManagerError::ContractNotFound)
    } else if version_index(m.contracts[i].versions, version_name) == m.contracts[i].versions.len() {
        Err(ContractManagerError::VersionNotFound)
    } else {
        Ok(
            ManagerView {
                contracts: m.contracts.update(
                    i,
                    ContractView { recommended_version: Some(version_name), ..m.contracts[i] },
                ),
                ..m
            },
        )
    }
}

/// Marks a version of a contract as the recommended one.
pub fn mark_recommended(
    manager: &mut ContractManager,
    signer: &Address,
    contract_name: String,
    version_name: String,
) -> (r: Result<(), ContractManagerError>)
    ensures
        match r {
            Ok(_) => recommended_marked(old(manager)@, *signer, contract_name@, version_name@)
                == Ok::<ManagerView, ContractManagerError>(final(manager)@),
            Err(e) => recommended_marked(old(manager)@, *signer, contract_name@, version_name@)
                == Err::<ManagerView, ContractManagerError>(e) && *final(manager) == *old(manager),
        },
{
    if *signer != manager.authority {
        return Err(ContractManagerError::Unauthorized);
    }
    let ghost before = manager@;
    let i = match manager.find_contract_index(&contract_name) {
        Some(i) => i,
        None => {
            return Err(ContractManagerError::ContractNotFound);
        },
    };
    if find_version(&manager.contracts[i].versions, &version_name).is_none() {
        return Err(ContractManagerError::VersionNotFound);
    }
    manager.contracts[i].recommended_version = Some(version_name);
    proof {
        assert(manager@.contracts[i as int].versions =~= before.contracts[i as int].versions);
        assert(manager@.contracts =~= before.contracts.update(
            i as int,
            ContractView { recommended_version: Some(version_name@), ..before.contracts[i as int] },
        ));
    }
    Ok(())
}

/// The registry after the recommendation of a contract has been removed, or
/// why it is refused: only the authority may change the registry
/// (`Unauthorized`), and the contract must be in it (`ContractNotFound`).
pub open spec fn recommended_removed(m: ManagerView, signer: Address, contract_name: Seq<char>) -> Result<
    ManagerView,
    ContractManagerError,
> {
    let i = contract_index(m.contracts, contract_name);
    if signer != m.authority {
        Err(ContractManagerError::Unauthorized)
    } else if i == m.contracts.len() {
        Err(ContractManagerError::ContractNotFound)
    } else {
        Ok(
            ManagerView {
                contracts: m.contracts.update(
                    i,
                    ContractView { recommended_version: None, ..m.contracts[i] },
                ),
                ..m
            },
        )
    }
}

/// Removes the recommendation of a contract.
pub fn remove_recommended(manager: &mut ContractManager, signer: &Address, contract_name: String) -> (r:
    Result<(), ContractManagerError>)
    ensures
        match r {
            Ok(_) => recommended_removed(old(manager)@, *signer, contract_name@) == Ok::<
                ManagerView,
                ContractManagerError,
            >(final(manager)@),
            Err(e) => recommended_removed(old(manager)@, *signer, contract_name@) == Err::<
                ManagerView,
                ContractManagerError,
            >(e) && *final(manager) == *old(manager),
        },
{
    if *signer != manager.authority {
        return Err(ContractManagerError::Unauthorized);
    }
    let ghost before = manager@;
    let i = match manager.find_contract_index(&contract_name) {
        Some(i) => i,
        None => {
            return Err(ContractManagerError::ContractNotFound);
        },
    };
    manager.contracts[i].recommended_version = None;
    proof {
        assert(manager@.contracts[i as int].versions =~= before.contracts[i as int].versions);
        assert(manager@.contracts =~= before.contracts.update(
            i as int,
            ContractView { recommended_version: None, ..before.contracts[i as int] },
        ));
    }
    Ok(())
}

} // verus!

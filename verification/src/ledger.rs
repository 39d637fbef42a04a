//! A model of the host ledger's account storage.
//!
//! Every entity lives at a deterministically derived key: the registry at a
//! fixed singleton slot, a program entry at its content hash, an auditor
//! account at its authority key, an analysis report at the (program,
//! auditor) pair, a skill at its name, a pattern at its ID, and a badge at
//! the program it attests. Creation is insert-if-absent — registering a
//! duplicate key fails because the slot is already occupied — and no
//! entity is ever deleted. Each operation here resolves the accounts an
//! instruction declares, runs the instruction's validation and mutation
//! from [`crate::instructions`], and writes the results back, failing as a
//! whole and changing nothing when any check fails.

use vstd::prelude::*;
use crate::errors::ParityError;
use crate::instructions::analysis::SubmitAnalysis;
use crate::instructions::analysis::UpdateAnalysis;
use crate::instructions::analysis::spec_submit_analysis_error;
use crate::instructions::analysis::spec_update_analysis_error;
use crate::instructions::analysis;
use crate::instructions::auditor::RegisterAuditor;
use crate::instructions::auditor::spec_register_auditor_error;
use crate::instructions::auditor;
use crate::instructions::badge::CreateVerificationBadge;
use crate::instructions::badge::RevokeVerificationBadge;
use crate::instructions::badge::spec_create_badge_error;
use crate::instructions::badge;
use crate::instructions::context::SubmitContextPattern;
use crate::instructions::context::spec_submit_pattern_error;
use crate::instructions::context;
use crate::instructions::registry::RegisterProgram;
use crate::instructions::registry::UpdateRegistryConfig;
use crate::instructions::registry::spec_register_program_error;
use crate::instructions::registry;
use crate::instructions::skill_registry::RegisterSkill;
use crate::instructions::skill_registry::DeprecateSkill;
use crate::instructions::skill_registry::UpdateSkill;
use crate::instructions::skill_registry::spec_register_skill_error;
use crate::instructions::skill_registry::spec_update_skill_error;
use crate::instructions::skill_registry;
use crate::state::AnalysisFindingsCount;
use crate::state::AnalysisReport;
use crate::state::AuditorAccount;
use crate::state::ContextPattern;
use crate::state::Framework;
use crate::state::PatternType;
use crate::state::ProgramEntry;
use crate::state::Pubkey;
use crate::state::Registry;
use crate::state::RegistryConfig;
use crate::state::Severity;
use crate::state::SkillEntry;
use crate::state::SkillType;
use crate::state::VerificationBadge;
use crate::state::VerificationTier;
use crate::state::initial_program_entry;
use crate::state::initial_registry;
use crate::state::pubkey_eq;

verus! {

/// The account store: one collection per entity kind, each keyed by the
/// entity's identifying field, plus the registry singleton.
pub struct Ledger {
    pub registry: Option<Registry>,
    pub programs: Vec<ProgramEntry>,
    pub auditors: Vec<AuditorAccount>,
    pub reports: Vec<AnalysisReport>,
    pub skills: Vec<SkillEntry>,
    pub patterns: Vec<ContextPattern>,
    pub badges: Vec<VerificationBadge>,
}

/// No two program entries share a content hash.
pub open spec fn programs_distinct(s: Seq<ProgramEntry>) -> bool {
    forall|i: int, j: int|
        0 <= i < j < s.len() ==> (#[trigger] s[i]).program_hash != (#[trigger] s[j]).program_hash
}

/// No two auditor accounts share an authority key.
pub open spec fn auditors_distinct(s: Seq<AuditorAccount>) -> bool {
    forall|i: int, j: int|
        0 <= i < j < s.len() ==> (#[trigger] s[i]).authority != (#[trigger] s[j]).authority
}

/// No two reports share a (program, auditor) pair.
pub open spec fn reports_distinct(s: Seq<AnalysisReport>) -> bool {
    forall|i: int, j: int|
        0 <= i < j < s.len() ==> ((#[trigger] s[i]).program_entry != (#[trigger] s[j]).program_entry
            || s[i].auditor != s[j].auditor)
}

/// No two skills share a name.
pub open spec fn skills_distinct(s: Seq<SkillEntry>) -> bool {
    forall|i: int, j: int|
        0 <= i < j < s.len() ==> (#[trigger] s[i]).name@ != (#[trigger] s[j]).name@
}

/// No two patterns share an ID.
pub open spec fn patterns_distinct(s: Seq<ContextPattern>) -> bool {
    forall|i: int, j: int|
        0 <= i < j < s.len() ==> (#[trigger] s[i]).pattern_id@ != (#[trigger] s[j]).pattern_id@
}

/// At most one badge per program.
pub open spec fn badges_distinct(s: Seq<VerificationBadge>) -> bool {
    forall|i: int, j: int|
        0 <= i < j < s.len() ==> (#[trigger] s[i]).program_entry != (#[trigger] s[j]).program_entry
}

/// A failed operation leaves every account as it was.
pub open spec fn unchanged(pre: Ledger, post: Ledger) -> bool {
    &&& post.registry == pre.registry
    &&& post.programs@ == pre.programs@
    &&& post.auditors@ == pre.auditors@
    &&& post.reports@ == pre.reports@
    &&& post.skills@ == pre.skills@
    &&& post.patterns@ == pre.patterns@
    &&& post.badges@ == pre.badges@
}

/// Taking an element out of a sequence and putting another back in its
/// place is a point update.
proof fn lemma_remove_insert_is_update<T>(s: Seq<T>, i: int, v: T)
    requires
        0 <= i < s.len(),
    ensures
        s.remove(i).insert(i, v) == s.update(i, v),
{
    assert(s.remove(i).insert(i, v) =~= s.update(i, v));
}

impl Ledger {
    /// An empty store, before the registry is initialized.
    pub fn new() -> (l: Ledger)
        ensures
            l.wf(),
            l.registry is None,
            l.programs@.len() == 0,
            l.auditors@.len() == 0,
            l.reports@.len() == 0,
            l.skills@.len() == 0,
            l.patterns@.len() == 0,
            l.badges@.len() == 0,
    {
        Ledger {
            registry: None,
            programs: Vec::new(),
            auditors: Vec::new(),
            reports: Vec::new(),
            skills: Vec::new(),
            patterns: Vec::new(),
            badges: Vec::new(),
        }
    }

    /// Keyed storage admits one slot per derived key, and every stored
    /// entity satisfies its own invariant.
    pub open spec fn wf(self) -> bool {
        &&& programs_distinct(self.programs@)
        &&& auditors_distinct(self.auditors@)
        &&& reports_distinct(self.reports@)
        &&& skills_distinct(self.skills@)
        &&& patterns_distinct(self.patterns@)
        &&& badges_distinct(self.badges@)
        &&& forall|i: int| 0 <= i < self.programs@.len() ==> (#[trigger] self.programs@[i]).wf()
        &&& forall|i: int| 0 <= i < self.auditors@.len() ==> (#[trigger] self.auditors@[i]).wf()
        &&& forall|i: int| 0 <= i < self.reports@.len() ==> (#[trigger] self.reports@[i]).wf()
        &&& forall|i: int| 0 <= i < self.skills@.len() ==> (#[trigger] self.skills@[i]).wf()
        &&& forall|i: int| 0 <= i < self.patterns@.len() ==> (#[trigger] self.patterns@[i]).wf()
        &&& forall|i: int| 0 <= i < self.badges@.len() ==> (#[trigger] self.badges@[i]).wf()
        &&& forall|i: int|
            0 <= i < self.reports@.len() ==> self.has_program(
                (#[trigger] self.reports@[i]).program_entry,
            )
        &&& forall|i: int|
            0 <= i < self.reports@.len() ==> self.has_auditor(
                (#[trigger] self.reports@[i]).auditor,
            )
        &&& forall|i: int|
            0 <= i < self.badges@.len() ==> self.has_program(
                (#[trigger] self.badges@[i]).program_entry,
            )
    }

    /// The registry's counters have room for one more entity, so a
    /// creation cannot overflow them. The host's fees make approaching
    /// `u64::MAX` creations unreachable in practice.
    pub open spec fn counters_ok(self) -> bool {
        self.registry matches Some(r) ==> {
            &&& r.total_programs < u64::MAX
            &&& r.total_analyses < u64::MAX
            &&& r.total_skills < u64::MAX
            &&& r.total_auditors < u64::MAX
            &&& r.total_patterns < u64::MAX
        }
    }

    /// The registry singleton, provided it has been initialized.
    pub open spec fn spec_registry(self) -> Registry
        recommends
            self.registry is Some,
    {
        self.registry->0
    }

    pub open spec fn has_program(self, program_hash: [u8; 32]) -> bool {
        exists|i: int|
            0 <= i < self.programs@.len() && (#[trigger] self.programs@[i]).program_hash
                == program_hash
    }

    pub open spec fn program_index(self, program_hash: [u8; 32]) -> int {
        choose|i: int|
            0 <= i < self.programs@.len() && (#[trigger] self.programs@[i]).program_hash
                == program_hash
    }

    /// The program entry stored under `program_hash`, provided it exists.
    pub open spec fn spec_program(self, program_hash: [u8; 32]) -> ProgramEntry
        recommends
            self.has_program(program_hash),
    {
        self.programs@[self.program_index(program_hash)]
    }

    /// Locates the program entry stored under `program_hash`.
    fn find_program(&self, program_hash: &[u8; 32]) -> (r: Option<usize>)
        requires
            self.wf(),
        ensures
            match r {
                Some(i) => self.has_program(*program_hash) && i == self.program_index(
                    *program_hash,
                ),
                None => !self.has_program(*program_hash),
            },
    {
        let n: usize = self.programs.len();
        let mut i: usize = 0;
        #[verifier::loop_isolation(false)]
        while i < n
            invariant
                i <= n,
                forall|j: int|
                    0 <= j < i ==> (#[trigger] self.programs@[j]).program_hash != *program_hash,
            decreases n - i,
        {
            if pubkey_eq(&self.programs[i].program_hash, program_hash) {
                proof {
                    assert(self.has_program(*program_hash));
                    let k = self.program_index(*program_hash);
                    assert(self.programs@[k].program_hash == *program_hash);
                    assert(k == i) by {
                        if k < i {
                            assert(self.programs@[k].program_hash != *program_hash);
                        }
                    }
                }
                return Some(i);
            }
            i = i + 1;
        }
        None
    }

    /// Creates the registry singleton; fails if the slot already holds
    /// one. The rest of the store is untouched either way.
    pub fn initialize_registry(
        &mut self,
        authority: Pubkey,
        config: RegistryConfig,
        now: i64,
    ) -> (r: Result<(), ParityError>)
        requires
            old(self).wf(),
        ensures
            final(self).wf(),
            match r {
                Ok(_) => {
                    &&& old(self).registry is None
                    &&& final(self).registry == Some(initial_registry(authority, config, now))
                },
                Err(e) => {
                    &&& e == ParityError::RegistryAlreadyInitialized
                    &&& old(self).registry is Some
                    &&& final(self).registry == old(self).registry
                },
            },
            final(self).programs == old(self).programs,
            final(self).auditors == old(self).auditors,
            final(self).reports == old(self).reports,
            final(self).skills == old(self).skills,
            final(self).patterns == old(self).patterns,
            final(self).badges == old(self).badges,
    {
        if self.registry.is_some() {
            return Err(ParityError::RegistryAlreadyInitialized);
        }
        self.registry = Some(registry::initialize_registry(authority, config, now));
        Ok(())
    }

    /// Registers a program under its content hash: fails if the registry
    /// is missing, if the hash is already taken (the derived slot is
    /// occupied), or if the entry's own validation rejects the input. On
    /// success the new entry is stored and counted; on failure nothing
    /// changes.
    pub fn register_program(
        &mut self,
        owner: Pubkey,
        program_hash: [u8; 32],
        framework: Framework,
        metadata_uri: String,
        now: i64,
    ) -> (r: Result<(), ParityError>)
        requires
            old(self).wf(),
            old(self).counters_ok(),
        ensures
            final(self).wf(),
            final(self).auditors == old(self).auditors,
            final(self).reports == old(self).reports,
            final(self).skills == old(self).skills,
            final(self).patterns == old(self).patterns,
            final(self).badges == old(self).badges,
            match r {
                Ok(_) => {
                    &&& old(self).registry is Some
                    &&& !old(self).has_program(program_hash)
                    &&& spec_register_program_error(metadata_uri@) is None
                    &&& final(self).programs@ == old(self).programs@.push(
                        initial_program_entry(owner, program_hash, framework, metadata_uri, now),
                    )
                    &&& final(self).registry == Some(
                        Registry {
                            total_programs: (old(self).spec_registry().total_programs + 1) as u64,
                            updated_at: now,
                            ..old(self).spec_registry()
                        },
                    )
                    &&& final(self).has_program(program_hash)
                },
                Err(e) => {
                    &&& *final(self) == *old(self)
                    &&& if old(self).registry is None {
                        e == ParityError::RegistryNotInitialized
                    } else if old(self).has_program(program_hash) {
                        e == ParityError::ProgramAlreadyRegistered
                    } else {
                        Some(e) == spec_register_program_error(metadata_uri@)
                    }
                },
            },
    {
        if self.registry.is_none() {
            return Err(ParityError::RegistryNotInitialized);
        }
        if self.find_program(&program_hash).is_some() {
            return Err(ParityError::ProgramAlreadyRegistered);
        }

        let reg = self.registry.take().unwrap();
        let mut ctx = RegisterProgram { owner, registry: reg };
        let res = registry::register_program(&mut ctx, now, program_hash, framework, metadata_uri);
        self.registry = Some(ctx.registry);

        match res {
            Ok(entry) => {
                proof {
                    assert forall|i: int| 0 <= i < self.programs@.len() implies (
                    #[trigger] self.programs@[i]).program_hash != program_hash by {
                        assert(!old(self).has_program(program_hash));
                    }
                }
                self.programs.push(entry);
                proof {
                    assert(self.programs@[self.programs@.len() - 1].program_hash == program_hash);
                    assert forall|i: int| 0 <= i < self.reports@.len() implies self.has_program(
                        (#[trigger] self.reports@[i]).program_entry,
                    ) by {
                        let j = old(self).program_index(self.reports@[i].program_entry);
                        assert(self.programs@[j].program_hash == self.reports@[i].program_entry);
                    }
                    assert forall|i: int| 0 <= i < self.badges@.len() implies self.has_program(
                        (#[trigger] self.badges@[i]).program_entry,
                    ) by {
                        let j = old(self).program_index(self.badges@[i].program_entry);
                        assert(self.programs@[j].program_hash == self.badges@[i].program_entry);
                    }
                }
                Ok(())
            },
            Err(e) => Err(e),
        }
    }

    pub open spec fn has_auditor(self, authority: Pubkey) -> bool {
        exists|i: int|
            0 <= i < self.auditors@.len() && (#[trigger] self.auditors@[i]).authority == authority
    }

    pub open spec fn auditor_index(self, authority: Pubkey) -> int {
        choose|i: int|
            0 <= i < self.auditors@.len() && (#[trigger] self.auditors@[i]).authority == authority
    }

    /// The auditor account stored under `authority`, provided it exists.
    pub open spec fn spec_auditor(self, authority: Pubkey) -> AuditorAccount
        recommends
            self.has_auditor(authority),
    {
        self.auditors@[self.auditor_index(authority)]
    }

    /// Locates the auditor account stored under `authority`.
    fn find_auditor(&self, authority: &Pubkey) -> (r: Option<usize>)
        requires
            self.wf(),
        ensures
            match r {
                Some(i) => self.has_auditor(*authority) && i == self.auditor_index(*authority),
                None => !self.has_auditor(*authority),
            },
    {
        let n: usize = self.auditors.len();
        let mut i: usize = 0;
        #[verifier::loop_isolation(false)]
        while i < n
            invariant
                i <= n,
                forall|j: int|
                    0 <= j < i ==> (#[trigger] self.auditors@[j]).authority != *authority,
            decreases n - i,
        {
            if pubkey_eq(&self.auditors[i].authority, authority) {
                proof {
                    assert(self.has_auditor(*authority));
                    let k = self.auditor_index(*authority);
                    assert(self.auditors@[k].authority == *authority);
                    assert(k == i) by {
                        if k < i {
                            assert(self.auditors@[k].authority != *authority);
                        }
                    }
                }
                return Some(i);
            }
            i = i + 1;
        }
        None
    }

    pub open spec fn has_report(self, program_hash: [u8; 32], auditor: Pubkey) -> bool {
        exists|i: int|
            0 <= i < self.reports@.len() && (#[trigger] self.reports@[i]).program_entry
                == program_hash && self.reports@[i].auditor == auditor
    }

    pub open spec fn report_index(self, program_hash: [u8; 32], auditor: Pubkey) -> int {
        choose|i: int|
            0 <= i < self.reports@.len() && (#[trigger] self.reports@[i]).program_entry
                == program_hash && self.reports@[i].auditor == auditor
    }

    /// The report stored under the (program, auditor) pair, provided it
    /// exists.
    pub open spec fn spec_report(self, program_hash: [u8; 32], auditor: Pubkey) -> AnalysisReport
        recommends
            self.has_report(program_hash, auditor),
    {
        self.reports@[self.report_index(program_hash, auditor)]
    }

    /// An existing report has room for one more revision of its version
    /// counter.
    pub open spec fn report_version_ok(self, program_hash: [u8; 32], auditor: Pubkey) -> bool {
        self.has_report(program_hash, auditor) ==> self.spec_report(
            program_hash,
            auditor,
        ).version < u8::MAX
    }

    /// An existing program entry has room for one more analysis in its
    /// counter.
    pub open spec fn program_count_ok(self, program_hash: [u8; 32]) -> bool {
        self.has_program(program_hash) ==> self.spec_program(program_hash).analysis_count
            < u32::MAX
    }

    /// Locates the report stored under the (program, auditor) pair.
    fn find_report(&self, program_hash: &[u8; 32], auditor: &Pubkey) -> (r: Option<usize>)
        requires
            self.wf(),
        ensures
            match r {
                Some(i) => self.has_report(*program_hash, *auditor) && i == self.report_index(
                    *program_hash,
                    *auditor,
                ),
                None => !self.has_report(*program_hash, *auditor),
            },
    {
        let n: usize = self.reports.len();
        let mut i: usize = 0;
        #[verifier::loop_isolation(false)]
        while i < n
            invariant
                i <= n,
                forall|j: int|
                    0 <= j < i ==> ((#[trigger] self.reports@[j]).program_entry != *program_hash
                        || self.reports@[j].auditor != *auditor),
            decreases n - i,
        {
            if pubkey_eq(&self.reports[i].program_entry, program_hash) && pubkey_eq(
                &self.reports[i].auditor,
                auditor,
            ) {
                proof {
                    assert(self.has_report(*program_hash, *auditor));
                    let k = self.report_index(*program_hash, *auditor);
                    assert(self.reports@[k].program_entry == *program_hash && self.reports@[k].auditor
                        == *auditor);
                    assert(k == i) by {
                        if k < i {
                            assert(self.reports@[k].program_entry != *program_hash
                                || self.reports@[k].auditor != *auditor);
                        }
                    }
                }
                return Some(i);
            }
            i = i + 1;
        }
        None
    }

    /// Registers an auditor account under the signer's key: fails if the
    /// registry is missing, if the signer already has an account, or if a
    /// profile field is too long. On success the account is stored active
    /// and counted; on failure nothing changes.
    pub fn register_auditor(
        &mut self,
        authority: Pubkey,
        name: String,
        credentials_uri: String,
        now: i64,
    ) -> (r: Result<(), ParityError>)
        requires
            old(self).wf(),
            old(self).counters_ok(),
        ensures
            final(self).wf(),
            final(self).programs@ == old(self).programs@,
            final(self).reports@ == old(self).reports@,
            final(self).skills@ == old(self).skills@,
            final(self).patterns@ == old(self).patterns@,
            final(self).badges@ == old(self).badges@,
            match r {
                Ok(_) => {
                    &&& old(self).registry is Some
                    &&& !old(self).has_auditor(authority)
                    &&& spec_register_auditor_error(name@, credentials_uri@) is None
                    &&& final(self).auditors@ == old(self).auditors@.push(
                        crate::state::initial_auditor_account(authority, name, credentials_uri, now),
                    )
                    &&& final(self).registry == Some(
                        Registry {
                            total_auditors: (old(self).spec_registry().total_auditors + 1) as u64,
                            updated_at: now,
                            ..old(self).spec_registry()
                        },
                    )
                    &&& final(self).has_auditor(authority)
                },
                Err(e) => {
                    &&& unchanged(*old(self), *final(self))
                    &&& if old(self).registry is None {
                        e == ParityError::RegistryNotInitialized
                    } else if old(self).has_auditor(authority) {
                        e == ParityError::AuditorAlreadyRegistered
                    } else {
                        Some(e) == spec_register_auditor_error(name@, credentials_uri@)
                    }
                },
            },
    {
        if self.registry.is_none() {
            return Err(ParityError::RegistryNotInitialized);
        }
        if self.find_auditor(&authority).is_some() {
            return Err(ParityError::AuditorAlreadyRegistered);
        }

        let reg = self.registry.take().unwrap();
        let mut ctx = RegisterAuditor { authority, registry: reg };
        let res = auditor::register_auditor(&mut ctx, now, name, credentials_uri);
        self.registry = Some(ctx.registry);

        match res {
            Ok(account) => {
                proof {
                    assert forall|i: int| 0 <= i < self.auditors@.len() implies (
                    #[trigger] self.auditors@[i]).authority != authority by {
                        assert(!old(self).has_auditor(authority));
                    }
                }
                self.auditors.push(account);
                proof {
                    assert(self.auditors@[self.auditors@.len() - 1].authority == authority);
                    assert forall|i: int| 0 <= i < self.reports@.len() implies self.has_auditor(
                        (#[trigger] self.reports@[i]).auditor,
                    ) by {
                        let j = old(self).auditor_index(self.reports@[i].auditor);
                        assert(self.auditors@[j].authority == self.reports@[i].auditor);
                    }
                }
                Ok(())
            },
            Err(e) => Err(e),
        }
    }

    /// Sets the activation flag of the auditor account stored under
    /// `authority`; fails only when no such account exists. Gating the
    /// caller is a governance decision outside the core.
    pub fn update_auditor_status(&mut self, authority: Pubkey, is_active: bool, now: i64) -> (r:
        Result<(), ParityError>)
        requires
            old(self).wf(),
        ensures
            final(self).wf(),
            final(self).registry == old(self).registry,
            final(self).programs@ == old(self).programs@,
            final(self).reports@ == old(self).reports@,
            final(self).skills@ == old(self).skills@,
            final(self).patterns@ == old(self).patterns@,
            final(self).badges@ == old(self).badges@,
            match r {
                Ok(_) => {
                    &&& old(self).has_auditor(authority)
                    &&& final(self).auditors@ == old(self).auditors@.update(
                        old(self).auditor_index(authority),
                        AuditorAccount {
                            is_active,
                            updated_at: now,
                            ..old(self).spec_auditor(authority)
                        },
                    )
                },
                Err(e) => {
                    &&& e == ParityError::AuditorNotFound
                    &&& !old(self).has_auditor(authority)
                    &&& unchanged(*old(self), *final(self))
                },
            },
    {
        let ai = match self.find_auditor(&authority) {
            Some(i) => i,
            None => {
                return Err(ParityError::AuditorNotFound);
            },
        };

        let ghost pre = *self;
        let mut account = self.auditors.remove(ai);
        auditor::update_auditor_status(&mut account, now, is_active);
        proof {
            lemma_remove_insert_is_update(pre.auditors@, ai as int, account);
        }
        self.auditors.insert(ai, account);
        proof {
            assert forall|i: int| 0 <= i < self.reports@.len() implies self.has_auditor(
                (#[trigger] self.reports@[i]).auditor,
            ) by {
                let j = old(self).auditor_index(self.reports@[i].auditor);
                assert(self.auditors@[j].authority == self.reports@[i].auditor);
            }
        }

        Ok(())
    }

    /// Overwrites the registry's policy fields: fails if the registry is
    /// missing or the signer is not its authority. On failure nothing
    /// changes.
    pub fn update_registry_config(
        &mut self,
        authority: Pubkey,
        new_config: RegistryConfig,
        now: i64,
    ) -> (r: Result<(), ParityError>)
        requires
            old(self).wf(),
        ensures
            final(self).wf(),
            final(self).programs@ == old(self).programs@,
            final(self).auditors@ == old(self).auditors@,
            final(self).reports@ == old(self).reports@,
            final(self).skills@ == old(self).skills@,
            final(self).patterns@ == old(self).patterns@,
            final(self).badges@ == old(self).badges@,
            match r {
                Ok(_) => {
                    &&& old(self).registry is Some
                    &&& old(self).spec_registry().authority == authority
                    &&& final(self).registry == Some(
                        Registry {
                            min_score_for_badge: new_config.min_score_for_badge,
                            analysis_fee_lamports: new_config.analysis_fee_lamports,
                            is_paused: new_config.is_paused,
                            updated_at: now,
                            ..old(self).spec_registry()
                        },
                    )
                },
                Err(e) => {
                    &&& unchanged(*old(self), *final(self))
                    &&& if old(self).registry is None {
                        e == ParityError::RegistryNotInitialized
                    } else {
                        e == ParityError::UnauthorizedAuditor && old(self).spec_registry().authority
                            != authority
                    }
                },
            },
    {
        if self.registry.is_none() {
            return Err(ParityError::RegistryNotInitialized);
        }

        let reg = self.registry.take().unwrap();
        let mut ctx = UpdateRegistryConfig { authority, registry: reg };
        let res = registry::update_registry_config(&mut ctx, now, new_config);
        self.registry = Some(ctx.registry);

        match res {
            Ok(_) => Ok(()),
            Err(e) => Err(e),
        }
    }

    /// Records a scored analysis: fails if the registry, program, or
    /// auditor account is missing, if this auditor already reported on
    /// this program (the derived slot is occupied), or if the
    /// submission's own validation rejects it. On success the report is
    /// stored at version 1, the program's score and verification flag are
    /// refreshed, and both analysis counters grow; on failure nothing
    /// changes.
    pub fn submit_analysis(
        &mut self,
        auditor: Pubkey,
        program_hash: [u8; 32],
        score: u8,
        findings_hash: [u8; 32],
        skills_used: Vec<String>,
        findings_count: AnalysisFindingsCount,
        now: i64,
    ) -> (r: Result<(), ParityError>)
        requires
            old(self).wf(),
            old(self).counters_ok(),
            old(self).program_count_ok(program_hash),
        ensures
            final(self).wf(),
            final(self).auditors@ == old(self).auditors@,
            final(self).skills@ == old(self).skills@,
            final(self).patterns@ == old(self).patterns@,
            final(self).badges@ == old(self).badges@,
            match r {
                Ok(_) => ({
                    let reg0 = old(self).spec_registry();
                    let pe0 = old(self).spec_program(program_hash);
                    &&& old(self).registry is Some
                    &&& old(self).has_program(program_hash)
                    &&& old(self).has_auditor(auditor)
                    &&& !old(self).has_report(program_hash, auditor)
                    &&& spec_submit_analysis_error(
                        old(self).spec_auditor(auditor),
                        auditor,
                        score,
                        skills_used@,
                        findings_count,
                    ) is None
                    &&& final(self).reports@ == old(self).reports@.push(
                        crate::state::initial_analysis_report(
                            program_hash,
                            auditor,
                            score,
                            findings_hash,
                            skills_used,
                            findings_count,
                            now,
                        ),
                    )
                    &&& final(self).programs@ == old(self).programs@.update(
                        old(self).program_index(program_hash),
                        ProgramEntry {
                            analysis_count: (pe0.analysis_count + 1) as u32,
                            latest_score: score,
                            updated_at: now,
                            is_verified: crate::state::verified_after_submission(
                                pe0.is_verified,
                                score,
                                reg0.min_score_for_badge,
                            ),
                            ..pe0
                        },
                    )
                    &&& final(self).registry == Some(
                        Registry {
                            total_analyses: (reg0.total_analyses + 1) as u64,
                            updated_at: now,
                            ..reg0
                        },
                    )
                    &&& final(self).has_report(program_hash, auditor)
                }),
                Err(e) => {
                    &&& unchanged(*old(self), *final(self))
                    &&& if old(self).registry is None {
                        e == ParityError::RegistryNotInitialized
                    } else if !old(self).has_program(program_hash) {
                        e == ParityError::ProgramNotRegistered
                    } else if !old(self).has_auditor(auditor) {
                        e == ParityError::AuditorNotFound
                    } else if old(self).has_report(program_hash, auditor) {
                        e == ParityError::AnalysisAlreadyExists
                    } else {
                        Some(e) == spec_submit_analysis_error(
                            old(self).spec_auditor(auditor),
                            auditor,
                            score,
                            skills_used@,
                            findings_count,
                        )
                    }
                },
            },
    {
        if self.registry.is_none() {
            return Err(ParityError::RegistryNotInitialized);
        }
        let pi = match self.find_program(&program_hash) {
            Some(i) => i,
            None => {
                return Err(ParityError::ProgramNotRegistered);
            },
        };
        let ai = match self.find_auditor(&auditor) {
            Some(i) => i,
            None => {
                return Err(ParityError::AuditorNotFound);
            },
        };
        if self.find_report(&program_hash, &auditor).is_some() {
            return Err(ParityError::AnalysisAlreadyExists);
        }

        let ghost pre = *self;
        let registry = self.registry.take().unwrap();
        let program_entry = self.programs.remove(pi);
        let auditor_account = self.auditors.remove(ai);
        let mut ctx = SubmitAnalysis { auditor, auditor_account, registry, program_entry };
        let res = analysis::submit_analysis(
            &mut ctx,
            now,
            score,
            findings_hash,
            skills_used,
            findings_count,
        );
        proof {
            lemma_remove_insert_is_update(pre.programs@, pi as int, ctx.program_entry);
            lemma_remove_insert_is_update(pre.auditors@, ai as int, ctx.auditor_account);
        }
        self.programs.insert(pi, ctx.program_entry);
        self.auditors.insert(ai, ctx.auditor_account);
        self.registry = Some(ctx.registry);

        match res {
            Ok(report) => {
                proof {
                    assert(self.auditors@ =~= pre.auditors@);
                    assert forall|i: int, j: int|
                        0 <= i < j < self.reports@.push(report).len() implies ((
                    #[trigger] self.reports@.push(report)[i]).program_entry != (
                    #[trigger] self.reports@.push(report)[j]).program_entry || self.reports@.push(
                        report,
                    )[i].auditor != self.reports@.push(report)[j].auditor) by {
                        if j < self.reports@.len() {
                            assert(reports_distinct(pre.reports@));
                        } else {
                            assert(!pre.has_report(program_hash, auditor));
                            assert(self.reports@.push(report)[j] == report);
                        }
                    }
                }
                self.reports.push(report);
                proof {
                    assert(self.reports@[self.reports@.len() - 1].program_entry == program_hash
                        && self.reports@[self.reports@.len() - 1].auditor == auditor);
                    assert(self.programs@[pi as int].program_hash == program_hash);
                    assert forall|i: int| 0 <= i < self.reports@.len() implies self.has_program(
                        (#[trigger] self.reports@[i]).program_entry,
                    ) by {
                        if i < self.reports@.len() - 1 {
                            let j = old(self).program_index(self.reports@[i].program_entry);
                            if j == pi as int {
                                assert(self.programs@[j].program_hash == old(
                                    self,
                                ).programs@[j].program_hash);
                            } else {
                                assert(self.programs@[j] == old(self).programs@[j]);
                            }
                        }
                    }
                    assert forall|i: int| 0 <= i < self.reports@.len() implies self.has_auditor(
                        (#[trigger] self.reports@[i]).auditor,
                    ) by {
                        if i < self.reports@.len() - 1 {
                            let j = old(self).auditor_index(self.reports@[i].auditor);
                            assert(self.auditors@[j].authority == self.reports@[i].auditor);
                        } else {
                            assert(self.auditors@[ai as int].authority == auditor);
                        }
                    }
                    assert forall|i: int| 0 <= i < self.badges@.len() implies self.has_program(
                        (#[trigger] self.badges@[i]).program_entry,
                    ) by {
                        let j = old(self).program_index(self.badges@[i].program_entry);
                        if j == pi as int {
                            assert(self.programs@[j].program_hash == old(
                                self,
                            ).programs@[j].program_hash);
                        } else {
                            assert(self.programs@[j] == old(self).programs@[j]);
                        }
                    }
                }
                Ok(())
            },
            Err(e) => {
                proof {
                    assert(self.programs@ =~= pre.programs@);
                    assert(self.auditors@ =~= pre.auditors@);
                }
                Err(e)
            },
        }
    }

    /// Revises this auditor's report on a program: fails if the registry,
    /// program, or report is missing, or if the revision's own validation
    /// rejects it. On success the report's version grows by one and the
    /// program's score and verification flag are recomputed; on failure
    /// nothing changes.
    #[verifier::rlimit(60)]
    pub fn update_analysis(
        &mut self,
        auditor: Pubkey,
        program_hash: [u8; 32],
        new_score: u8,
        new_findings_hash: [u8; 32],
        new_findings_count: AnalysisFindingsCount,
        now: i64,
    ) -> (r: Result<(), ParityError>)
        requires
            old(self).wf(),
            old(self).report_version_ok(program_hash, auditor),
        ensures
            final(self).wf(),
            final(self).registry == old(self).registry,
            final(self).auditors@ == old(self).auditors@,
            final(self).skills@ == old(self).skills@,
            final(self).patterns@ == old(self).patterns@,
            final(self).badges@ == old(self).badges@,
            match r {
                Ok(_) => ({
                    let rep0 = old(self).spec_report(program_hash, auditor);
                    let pe0 = old(self).spec_program(program_hash);
                    &&& old(self).registry is Some
                    &&& old(self).has_program(program_hash)
                    &&& old(self).has_report(program_hash, auditor)
                    &&& spec_update_analysis_error(rep0, auditor, new_score, new_findings_count)
                        is None
                    &&& final(self).reports@ == old(self).reports@.update(
                        old(self).report_index(program_hash, auditor),
                        AnalysisReport {
                            score: new_score,
                            findings_hash: new_findings_hash,
                            findings_count: new_findings_count,
                            updated_at: now,
                            version: (rep0.version + 1) as u8,
                            ..rep0
                        },
                    )
                    &&& final(self).programs@ == old(self).programs@.update(
                        old(self).program_index(program_hash),
                        ProgramEntry {
                            latest_score: new_score,
                            updated_at: now,
                            is_verified: crate::state::verified_after_revision(
                                new_score,
                                old(self).spec_registry().min_score_for_badge,
                            ),
                            ..pe0
                        },
                    )
                }),
                Err(e) => {
                    &&& unchanged(*old(self), *final(self))
                    &&& if old(self).registry is None {
                        e == ParityError::RegistryNotInitialized
                    } else if !old(self).has_program(program_hash) {
                        e == ParityError::ProgramNotRegistered
                    } else if !old(self).has_report(program_hash, auditor) {
                        e == ParityError::AnalysisNotFound
                    } else {
                        Some(e) == spec_update_analysis_error(
                            old(self).spec_report(program_hash, auditor),
                            auditor,
                            new_score,
                            new_findings_count,
                        )
                    }
                },
            },
    {
        if self.registry.is_none() {
            return Err(ParityError::RegistryNotInitialized);
        }
        let pi = match self.find_program(&program_hash) {
            Some(i) => i,
            None => {
                return Err(ParityError::ProgramNotRegistered);
            },
        };
        let ri = match self.find_report(&program_hash, &auditor) {
            Some(i) => i,
            None => {
                return Err(ParityError::AnalysisNotFound);
            },
        };

        let ghost pre = *self;
        let registry = self.registry.take().unwrap();
        let program_entry = self.programs.remove(pi);
        let analysis_report = self.reports.remove(ri);
        let mut ctx = UpdateAnalysis { auditor, registry, program_entry, analysis_report };
        let res = analysis::update_analysis(
            &mut ctx,
            now,
            new_score,
            new_findings_hash,
            new_findings_count,
        );
        proof {
            lemma_remove_insert_is_update(pre.programs@, pi as int, ctx.program_entry);
            lemma_remove_insert_is_update(pre.reports@, ri as int, ctx.analysis_report);
        }
        self.programs.insert(pi, ctx.program_entry);
        self.reports.insert(ri, ctx.analysis_report);
        self.registry = Some(ctx.registry);

        match res {
            Ok(_) => {
                proof {
                    assert forall|i: int|
                        0 <= i < self.reports@.len() implies ((#[trigger] self.reports@[i]).program_entry
                        == pre.reports@[i].program_entry && self.reports@[i].auditor
                        == pre.reports@[i].auditor && self.reports@[i].wf()) by {
                        if i != ri as int {
                            assert(self.reports@[i] == pre.reports@[i]);
                        }
                    }
                    assert forall|i: int|
                        0 <= i < self.programs@.len() implies ((#[trigger] self.programs@[i]).program_hash
                        == pre.programs@[i].program_hash && self.programs@[i].wf()) by {
                        if i != pi as int {
                            assert(self.programs@[i] == pre.programs@[i]);
                        }
                    }
                    assert(reports_distinct(self.reports@));
                    assert(programs_distinct(self.programs@));
                    assert forall|i: int| 0 <= i < self.reports@.len() implies self.has_program(
                        (#[trigger] self.reports@[i]).program_entry,
                    ) by {
                        let j = old(self).program_index(old(self).reports@[i].program_entry);
                        assert(self.programs@[j].program_hash == old(
                            self,
                        ).programs@[j].program_hash);
                    }
                    assert forall|i: int| 0 <= i < self.reports@.len() implies self.has_auditor(
                        (#[trigger] self.reports@[i]).auditor,
                    ) by {
                        let j = old(self).auditor_index(old(self).reports@[i].auditor);
                        assert(self.auditors@[j].authority == old(self).reports@[i].auditor);
                    }
                    assert forall|i: int| 0 <= i < self.badges@.len() implies self.has_program(
                        (#[trigger] self.badges@[i]).program_entry,
                    ) by {
                        let j = old(self).program_index(self.badges@[i].program_entry);
                        assert(self.programs@[j].program_hash == old(
                            self,
                        ).programs@[j].program_hash);
                    }
                    assert forall|i: int|
                        0 <= i < self.auditors@.len() implies (#[trigger] self.auditors@[i]).wf() by {
                        assert(self.auditors@[i] == pre.auditors@[i]);
                    }
                    assert forall|i: int|
                        0 <= i < self.skills@.len() implies (#[trigger] self.skills@[i]).wf() by {
                        assert(self.skills@[i] == pre.skills@[i]);
                    }
                    assert forall|i: int|
                        0 <= i < self.patterns@.len() implies (#[trigger] self.patterns@[i]).wf() by {
                        assert(self.patterns@[i] == pre.patterns@[i]);
                    }
                    assert forall|i: int|
                        0 <= i < self.badges@.len() implies (#[trigger] self.badges@[i]).wf() by {
                        assert(self.badges@[i] == pre.badges@[i]);
                    }
                    assert(self.wf());
                }
                Ok(())
            },
            Err(e) => {
                proof {
                    assert(self.programs@ =~= pre.programs@);
                    assert(self.reports@ =~= pre.reports@);
                }
                Err(e)
            },
        }
    }

    pub open spec fn has_skill(self, name: Seq<char>) -> bool {
        exists|i: int|
            0 <= i < self.skills@.len() && (#[trigger] self.skills@[i]).name@ == name
    }

    pub open spec fn skill_index(self, name: Seq<char>) -> int {
        choose|i: int|
            0 <= i < self.skills@.len() && (#[trigger] self.skills@[i]).name@ == name
    }

    /// The skill stored under `name`, provided it exists.
    pub open spec fn spec_skill(self, name: Seq<char>) -> SkillEntry
        recommends
            self.has_skill(name),
    {
        self.skills@[self.skill_index(name)]
    }

    /// Locates the skill stored under `name`.
    fn find_skill(&self, name: &String) -> (r: Option<usize>)
        requires
            self.wf(),
        ensures
            match r {
                Some(i) => self.has_skill(name@) && i == self.skill_index(name@),
                None => !self.has_skill(name@),
            },
    {
        let n: usize = self.skills.len();
        let mut i: usize = 0;
        #[verifier::loop_isolation(false)]
        while i < n
            invariant
                i <= n,
                forall|j: int| 0 <= j < i ==> (#[trigger] self.skills@[j]).name@ != name@,
            decreases n - i,
        {
            if self.skills[i].name == *name {
                proof {
                    assert(self.has_skill(name@));
                    let k = self.skill_index(name@);
                    assert(self.skills@[k].name@ == name@);
                    assert(k == i) by {
                        if k < i {
                            assert(self.skills@[k].name@ != name@);
                        }
                    }
                }
                return Some(i);
            }
            i = i + 1;
        }
        None
    }

    /// Registers a skill under its name: fails if the registry is
    /// missing, if the name is already taken (the derived slot is
    /// occupied), or if a field is too long. On success the entry is
    /// stored and counted; on failure nothing changes.
    pub fn register_skill(
        &mut self,
        authority: Pubkey,
        name: String,
        version: String,
        description: String,
        skill_type: SkillType,
        now: i64,
    ) -> (r: Result<(), ParityError>)
        requires
            old(self).wf(),
            old(self).counters_ok(),
        ensures
            final(self).wf(),
            final(self).programs@ == old(self).programs@,
            final(self).auditors@ == old(self).auditors@,
            final(self).reports@ == old(self).reports@,
            final(self).patterns@ == old(self).patterns@,
            final(self).badges@ == old(self).badges@,
            match r {
                Ok(_) => {
                    &&& old(self).registry is Some
                    &&& !old(self).has_skill(name@)
                    &&& spec_register_skill_error(name@, version@, description@) is None
                    &&& final(self).skills@ == old(self).skills@.push(
                        crate::state::initial_skill_entry(
                            authority,
                            name,
                            version,
                            description,
                            skill_type,
                            now,
                        ),
                    )
                    &&& final(self).registry == Some(
                        Registry {
                            total_skills: (old(self).spec_registry().total_skills + 1) as u64,
                            updated_at: now,
                            ..old(self).spec_registry()
                        },
                    )
                    &&& final(self).has_skill(name@)
                },
                Err(e) => {
                    &&& unchanged(*old(self), *final(self))
                    &&& if old(self).registry is None {
                        e == ParityError::RegistryNotInitialized
                    } else if old(self).has_skill(name@) {
                        e == ParityError::SkillAlreadyRegistered
                    } else {
                        Some(e) == spec_register_skill_error(name@, version@, description@)
                    }
                },
            },
    {
        if self.registry.is_none() {
            return Err(ParityError::RegistryNotInitialized);
        }
        if self.find_skill(&name).is_some() {
            return Err(ParityError::SkillAlreadyRegistered);
        }

        let reg = self.registry.take().unwrap();
        let mut ctx = RegisterSkill { authority, registry: reg };
        let res = skill_registry::register_skill(&mut ctx, now, name, version, description,
            skill_type);
        self.registry = Some(ctx.registry);

        match res {
            Ok(skill) => {
                proof {
                    assert forall|i: int| 0 <= i < self.skills@.len() implies (
                    #[trigger] self.skills@[i]).name@ != skill.name@ by {
                        assert(!old(self).has_skill(skill.name@));
                    }
                }
                self.skills.push(skill);
                proof {
                    assert(self.skills@[self.skills@.len() - 1].name@ == name@);
                }
                Ok(())
            },
            Err(e) => Err(e),
        }
    }

    /// Replaces the version and description of the skill stored under
    /// `name`: fails if no such skill exists, if it is deprecated —
    /// regardless of the caller — if the signer is not its authority, or
    /// if a field is too long. On failure nothing changes.
    pub fn update_skill(
        &mut self,
        authority: Pubkey,
        name: &String,
        new_version: String,
        new_description: String,
        now: i64,
    ) -> (r: Result<(), ParityError>)
        requires
            old(self).wf(),
        ensures
            final(self).wf(),
            final(self).registry == old(self).registry,
            final(self).programs@ == old(self).programs@,
            final(self).auditors@ == old(self).auditors@,
            final(self).reports@ == old(self).reports@,
            final(self).patterns@ == old(self).patterns@,
            final(self).badges@ == old(self).badges@,
            match r {
                Ok(_) => ({
                    let sk0 = old(self).spec_skill(name@);
                    &&& old(self).has_skill(name@)
                    &&& spec_update_skill_error(sk0, authority, new_version@, new_description@)
                        is None
                    &&& final(self).skills@ == old(self).skills@.update(
                        old(self).skill_index(name@),
                        SkillEntry {
                            version: new_version,
                            description: new_description,
                            updated_at: now,
                            ..sk0
                        },
                    )
                }),
                Err(e) => {
                    &&& unchanged(*old(self), *final(self))
                    &&& if !old(self).has_skill(name@) {
                        e == ParityError::SkillNotFound
                    } else {
                        Some(e) == spec_update_skill_error(
                            old(self).spec_skill(name@),
                            authority,
                            new_version@,
                            new_description@,
                        )
                    }
                },
            },
    {
        let si = match self.find_skill(name) {
            Some(i) => i,
            None => {
                return Err(ParityError::SkillNotFound);
            },
        };

        let ghost pre = *self;
        let skill_entry = self.skills.remove(si);
        let mut ctx = UpdateSkill { authority, skill_entry };
        let res = skill_registry::update_skill(&mut ctx, now, new_version, new_description);
        proof {
            lemma_remove_insert_is_update(pre.skills@, si as int, ctx.skill_entry);
        }
        self.skills.insert(si, ctx.skill_entry);

        match res {
            Ok(_) => Ok(()),
            Err(e) => {
                proof {
                    assert(self.skills@ =~= pre.skills@);
                }
                Err(e)
            },
        }
    }

    /// Deprecates the skill stored under `name`, a one-way transition:
    /// fails if no such skill exists, if the signer is not its authority,
    /// or if it is already deprecated. On failure nothing changes.
    pub fn deprecate_skill(&mut self, authority: Pubkey, name: &String, now: i64) -> (r: Result<
        (),
        ParityError,
    >)
        requires
            old(self).wf(),
        ensures
            final(self).wf(),
            final(self).registry == old(self).registry,
            final(self).programs@ == old(self).programs@,
            final(self).auditors@ == old(self).auditors@,
            final(self).reports@ == old(self).reports@,
            final(self).patterns@ == old(self).patterns@,
            final(self).badges@ == old(self).badges@,
            match r {
                Ok(_) => ({
                    let sk0 = old(self).spec_skill(name@);
                    &&& old(self).has_skill(name@)
                    &&& sk0.authority == authority
                    &&& !sk0.is_deprecated
                    &&& final(self).skills@ == old(self).skills@.update(
                        old(self).skill_index(name@),
                        SkillEntry { is_deprecated: true, updated_at: now, ..sk0 },
                    )
                }),
                Err(e) => {
                    &&& unchanged(*old(self), *final(self))
                    &&& if !old(self).has_skill(name@) {
                        e == ParityError::SkillNotFound
                    } else if old(self).spec_skill(name@).authority != authority {
                        e == ParityError::UnauthorizedAuditor
                    } else {
                        e == ParityError::SkillAlreadyDeprecated && old(self).spec_skill(
                            name@,
                        ).is_deprecated
                    }
                },
            },
    {
        let si = match self.find_skill(name) {
            Some(i) => i,
            None => {
                return Err(ParityError::SkillNotFound);
            },
        };

        let ghost pre = *self;
        let skill_entry = self.skills.remove(si);
        let mut ctx = DeprecateSkill { authority, skill_entry };
        let res = skill_registry::deprecate_skill(&mut ctx, now);
        proof {
            lemma_remove_insert_is_update(pre.skills@, si as int, ctx.skill_entry);
        }
        self.skills.insert(si, ctx.skill_entry);

        match res {
            Ok(_) => Ok(()),
            Err(e) => {
                proof {
                    assert(self.skills@ =~= pre.skills@);
                }
                Err(e)
            },
        }
    }

    pub open spec fn has_pattern(self, pattern_id: Seq<char>) -> bool {
        exists|i: int|
            0 <= i < self.patterns@.len() && (#[trigger] self.patterns@[i]).pattern_id@
                == pattern_id
    }

    pub open spec fn pattern_index(self, pattern_id: Seq<char>) -> int {
        choose|i: int|
            0 <= i < self.patterns@.len() && (#[trigger] self.patterns@[i]).pattern_id@
                == pattern_id
    }

    /// The pattern stored under `pattern_id`, provided it exists.
    pub open spec fn spec_pattern(self, pattern_id: Seq<char>) -> ContextPattern
        recommends
            self.has_pattern(pattern_id),
    {
        self.patterns@[self.pattern_index(pattern_id)]
    }

    /// Locates the pattern stored under `pattern_id`.
    fn find_pattern(&self, pattern_id: &String) -> (r: Option<usize>)
        requires
            self.wf(),
        ensures
            match r {
                Some(i) => self.has_pattern(pattern_id@) && i == self.pattern_index(pattern_id@),
                None => !self.has_pattern(pattern_id@),
            },
    {
        let n: usize = self.patterns.len();
        let mut i: usize = 0;
        #[verifier::loop_isolation(false)]
        while i < n
            invariant
                i <= n,
                forall|j: int| 0 <= j < i ==> (#[trigger] self.patterns@[j]).pattern_id@
                    != pattern_id@,
            decreases n - i,
        {
            if self.patterns[i].pattern_id == *pattern_id {
                proof {
                    assert(self.has_pattern(pattern_id@));
                    let k = self.pattern_index(pattern_id@);
                    assert(self.patterns@[k].pattern_id@ == pattern_id@);
                    assert(k == i) by {
                        if k < i {
                            assert(self.patterns@[k].pattern_id@ != pattern_id@);
                        }
                    }
                }
                return Some(i);
            }
            i = i + 1;
        }
        None
    }

    /// Submits a detection pattern under its ID: fails if the registry is
    /// missing, if the ID is already taken (the derived slot is
    /// occupied), or if a field is too long. On success the pattern is
    /// stored active and counted; on failure nothing changes.
    pub fn submit_context_pattern(
        &mut self,
        submitter: Pubkey,
        pattern_id: String,
        severity: Severity,
        pattern_type: PatternType,
        description: String,
        detection_rule: String,
        now: i64,
    ) -> (r: Result<(), ParityError>)
        requires
            old(self).wf(),
            old(self).counters_ok(),
        ensures
            final(self).wf(),
            final(self).programs@ == old(self).programs@,
            final(self).auditors@ == old(self).auditors@,
            final(self).reports@ == old(self).reports@,
            final(self).skills@ == old(self).skills@,
            final(self).badges@ == old(self).badges@,
            match r {
                Ok(_) => {
                    &&& old(self).registry is Some
                    &&& !old(self).has_pattern(pattern_id@)
                    &&& spec_submit_pattern_error(pattern_id@, description@, detection_rule@)
                        is None
                    &&& final(self).patterns@ == old(self).patterns@.push(
                        crate::state::initial_context_pattern(
                            submitter,
                            pattern_id,
                            severity,
                            pattern_type,
                            description,
                            detection_rule,
                            now,
                        ),
                    )
                    &&& final(self).registry == Some(
                        Registry {
                            total_patterns: (old(self).spec_registry().total_patterns + 1) as u64,
                            updated_at: now,
                            ..old(self).spec_registry()
                        },
                    )
                    &&& final(self).has_pattern(pattern_id@)
                },
                Err(e) => {
                    &&& unchanged(*old(self), *final(self))
                    &&& if old(self).registry is None {
                        e == ParityError::RegistryNotInitialized
                    } else if old(self).has_pattern(pattern_id@) {
                        e == ParityError::PatternAlreadyRegistered
                    } else {
                        Some(e) == spec_submit_pattern_error(
                            pattern_id@,
                            description@,
                            detection_rule@,
                        )
                    }
                },
            },
    {
        if self.registry.is_none() {
            return Err(ParityError::RegistryNotInitialized);
        }
        if self.find_pattern(&pattern_id).is_some() {
            return Err(ParityError::PatternAlreadyRegistered);
        }

        let reg = self.registry.take().unwrap();
        let mut ctx = SubmitContextPattern { submitter, registry: reg };
        let res = context::submit_context_pattern(
            &mut ctx,
            now,
            pattern_id,
            severity,
            pattern_type,
            description,
            detection_rule,
        );
        self.registry = Some(ctx.registry);

        match res {
            Ok(pattern) => {
                proof {
                    assert forall|i: int| 0 <= i < self.patterns@.len() implies (
                    #[trigger] self.patterns@[i]).pattern_id@ != pattern.pattern_id@ by {
                        assert(!old(self).has_pattern(pattern.pattern_id@));
                    }
                }
                self.patterns.push(pattern);
                proof {
                    assert(self.patterns@[self.patterns@.len() - 1].pattern_id@ == pattern_id@);
                }
                Ok(())
            },
            Err(e) => Err(e),
        }
    }

    pub open spec fn has_badge(self, program_hash: [u8; 32]) -> bool {
        exists|i: int|
            0 <= i < self.badges@.len() && (#[trigger] self.badges@[i]).program_entry
                == program_hash
    }

    pub open spec fn badge_index(self, program_hash: [u8; 32]) -> int {
        choose|i: int|
            0 <= i < self.badges@.len() && (#[trigger] self.badges@[i]).program_entry
                == program_hash
    }

    /// The badge stored under the program's hash, provided it exists.
    pub open spec fn spec_badge(self, program_hash: [u8; 32]) -> VerificationBadge
        recommends
            self.has_badge(program_hash),
    {
        self.badges@[self.badge_index(program_hash)]
    }

    /// Locates the badge stored under the program's hash.
    fn find_badge(&self, program_hash: &[u8; 32]) -> (r: Option<usize>)
        requires
            self.wf(),
        ensures
            match r {
                Some(i) => self.has_badge(*program_hash) && i == self.badge_index(*program_hash),
                None => !self.has_badge(*program_hash),
            },
    {
        let n: usize = self.badges.len();
        let mut i: usize = 0;
        #[verifier::loop_isolation(false)]
        while i < n
            invariant
                i <= n,
                forall|j: int|
                    0 <= j < i ==> (#[trigger] self.badges@[j]).program_entry != *program_hash,
            decreases n - i,
        {
            if pubkey_eq(&self.badges[i].program_entry, program_hash) {
                proof {
                    assert(self.has_badge(*program_hash));
                    let k = self.badge_index(*program_hash);
                    assert(self.badges@[k].program_entry == *program_hash);
                    assert(k == i) by {
                        if k < i {
                            assert(self.badges@[k].program_entry != *program_hash);
                        }
                    }
                }
                return Some(i);
            }
            i = i + 1;
        }
        None
    }

    /// Issues a badge against a program: fails if the registry or program
    /// is missing, if the program already carries a badge (the derived
    /// slot is occupied), or if the issuance's own validation rejects it
    /// — wrong signer, unverified program, score below the tier
    /// threshold, or an expiry not in the future. No existing account is
    /// mutated; on failure nothing changes at all.
    pub fn create_verification_badge(
        &mut self,
        authority: Pubkey,
        program_hash: [u8; 32],
        tier: VerificationTier,
        expires_at: i64,
        now: i64,
    ) -> (r: Result<(), ParityError>)
        requires
            old(self).wf(),
        ensures
            final(self).wf(),
            final(self).registry == old(self).registry,
            final(self).programs@ == old(self).programs@,
            final(self).auditors@ == old(self).auditors@,
            final(self).reports@ == old(self).reports@,
            final(self).skills@ == old(self).skills@,
            final(self).patterns@ == old(self).patterns@,
            match r {
                Ok(_) => ({
                    let pe0 = old(self).spec_program(program_hash);
                    &&& old(self).registry is Some
                    &&& old(self).has_program(program_hash)
                    &&& !old(self).has_badge(program_hash)
                    &&& spec_create_badge_error(
                        old(self).spec_registry(),
                        pe0,
                        authority,
                        tier,
                        expires_at,
                        now,
                    ) is None
                    &&& final(self).badges@ == old(self).badges@.push(
                        crate::state::issued_badge(
                            program_hash,
                            authority,
                            tier,
                            pe0.latest_score,
                            now,
                            expires_at,
                        ),
                    )
                    &&& final(self).has_badge(program_hash)
                }),
                Err(e) => {
                    &&& unchanged(*old(self), *final(self))
                    &&& if old(self).registry is None {
                        e == ParityError::RegistryNotInitialized
                    } else if !old(self).has_program(program_hash) {
                        e == ParityError::ProgramNotRegistered
                    } else if old(self).has_badge(program_hash) {
                        e == ParityError::BadgeAlreadyIssued
                    } else {
                        Some(e) == spec_create_badge_error(
                            old(self).spec_registry(),
                            old(self).spec_program(program_hash),
                            authority,
                            tier,
                            expires_at,
                            now,
                        )
                    }
                },
            },
    {
        if self.registry.is_none() {
            return Err(ParityError::RegistryNotInitialized);
        }
        let pi = match self.find_program(&program_hash) {
            Some(i) => i,
            None => {
                return Err(ParityError::ProgramNotRegistered);
            },
        };
        if self.find_badge(&program_hash).is_some() {
            return Err(ParityError::BadgeAlreadyIssued);
        }

        let ghost pre = *self;
        let registry = self.registry.take().unwrap();
        let program_entry = self.programs.remove(pi);
        let mut ctx = CreateVerificationBadge { authority, registry, program_entry };
        let res = badge::create_verification_badge(&mut ctx, now, tier, expires_at);
        proof {
            lemma_remove_insert_is_update(pre.programs@, pi as int, ctx.program_entry);
        }
        self.programs.insert(pi, ctx.program_entry);
        self.registry = Some(ctx.registry);
        proof {
            assert(self.programs@ =~= pre.programs@);
        }

        match res {
            Ok(badge_account) => {
                proof {
                    assert forall|i: int| 0 <= i < self.badges@.len() implies (
                    #[trigger] self.badges@[i]).program_entry != program_hash by {
                        assert(!old(self).has_badge(program_hash));
                    }
                }
                self.badges.push(badge_account);
                proof {
                    assert(self.badges@[self.badges@.len() - 1].program_entry == program_hash);
                }
                Ok(())
            },
            Err(e) => Err(e),
        }
    }

    /// Revokes the badge stored under the program's hash, a one-way
    /// transition: fails if no badge exists, if the signer is not the
    /// registry authority, or if the badge is already revoked. On failure
    /// nothing changes.
    pub fn revoke_verification_badge(&mut self, authority: Pubkey, program_hash: [u8; 32]) -> (r:
        Result<(), ParityError>)
        requires
            old(self).wf(),
        ensures
            final(self).wf(),
            final(self).registry == old(self).registry,
            final(self).programs@ == old(self).programs@,
            final(self).auditors@ == old(self).auditors@,
            final(self).reports@ == old(self).reports@,
            final(self).skills@ == old(self).skills@,
            final(self).patterns@ == old(self).patterns@,
            match r {
                Ok(_) => ({
                    let b0 = old(self).spec_badge(program_hash);
                    &&& old(self).registry is Some
                    &&& old(self).has_badge(program_hash)
                    &&& old(self).spec_registry().authority == authority
                    &&& !b0.is_revoked
                    &&& final(self).badges@ == old(self).badges@.update(
                        old(self).badge_index(program_hash),
                        VerificationBadge { is_revoked: true, ..b0 },
                    )
                }),
                Err(e) => {
                    &&& unchanged(*old(self), *final(self))
                    &&& if old(self).registry is None {
                        e == ParityError::RegistryNotInitialized
                    } else if !old(self).has_badge(program_hash) {
                        e == ParityError::BadgeNotFound
                    } else if old(self).spec_registry().authority != authority {
                        e == ParityError::UnauthorizedAuditor
                    } else {
                        e == ParityError::BadgeAlreadyRevoked && old(self).spec_badge(
                            program_hash,
                        ).is_revoked
                    }
                },
            },
    {
        if self.registry.is_none() {
            return Err(ParityError::RegistryNotInitialized);
        }
        let bi = match self.find_badge(&program_hash) {
            Some(i) => i,
            None => {
                return Err(ParityError::BadgeNotFound);
            },
        };

        let ghost pre = *self;
        let registry = self.registry.take().unwrap();
        let verification_badge = self.badges.remove(bi);
        let mut ctx = RevokeVerificationBadge { authority, registry, verification_badge };
        let res = badge::revoke_verification_badge(&mut ctx);
        proof {
            lemma_remove_insert_is_update(pre.badges@, bi as int, ctx.verification_badge);
        }
        self.badges.insert(bi, ctx.verification_badge);
        self.registry = Some(ctx.registry);

        match res {
            Ok(_) => Ok(()),
            Err(e) => {
                proof {
                    assert(self.badges@ =~= pre.badges@);
                }
                Err(e)
            },
        }
    }
}

} // verus!

//! The score ledger: one record per contributor and period, written by
//! awards that add to the record of the period or open it with the
//! contributor's balance carried over.
use crate::errors::TaskError;
use crate::score::{
    award_plan, plan_award, record_view, ScoreRecord, ScoreView, ScoreWrite, ScoreWriteView,
};
use vstd::prelude::*;

verus! {

/// Whether position `i` of `s` holds the record of `login` for the period.
pub open spec fn key_at(
    s: Seq<ScoreView>,
    i: int,
    year: int,
    month: int,
    login: Seq<char>,
) -> bool {
    0 <= i < s.len() && s[i].has_key(year, month, login)
}

/// Whether `s` holds a record of `login` for the period.
pub open spec fn has_record(s: Seq<ScoreView>, year: int, month: int, login: Seq<char>) -> bool {
    exists|i: int| key_at(s, i, year, month, login)
}

/// The position of the record of `login` for the period, where there is one.
pub open spec fn record_index(s: Seq<ScoreView>, year: int, month: int, login: Seq<char>) -> int {
    choose|i: int| key_at(s, i, year, month, login)
}

/// No two records of `s` are of the same contributor and period.
pub open spec fn unique_keys(s: Seq<ScoreView>) -> bool {
    forall|i: int, j: int|
        #![trigger s[i], s[j]]
        0 <= i < s.len() && 0 <= j < s.len() && s[i].has_key(
            s[j].year,
            s[j].month,
            s[j].github_login,
        ) ==> i == j
}

/// Whether position `i` of `s` holds a record of `login`.
pub open spec fn login_at(s: Seq<ScoreView>, i: int, login: Seq<char>) -> bool {
    0 <= i < s.len() && s[i].github_login == login
}

/// Whether `s` holds a record of `login`, of whatever period.
pub open spec fn has_login(s: Seq<ScoreView>, login: Seq<char>) -> bool {
    exists|i: int| login_at(s, i, login)
}

/// Whether position `i` of `s` holds the most recent record of `login`: no
/// record of `login` is of a later period. How far back the period lies does
/// not matter.
pub open spec fn is_latest_at(s: Seq<ScoreView>, i: int, login: Seq<char>) -> bool {
    &&& login_at(s, i, login)
    &&& forall|j: int| #[trigger] login_at(s, j, login) ==> s[j].not_later_than(s[i])
}

/// The position of the most recent record of `login`, where there is one.
pub open spec fn latest_index(s: Seq<ScoreView>, login: Seq<char>) -> int {
    choose|i: int| is_latest_at(s, i, login)
}

/// The record of `login` for the period, if `s` holds one.
pub open spec fn current_record(
    s: Seq<ScoreView>,
    year: int,
    month: int,
    login: Seq<char>,
) -> Option<ScoreView> {
    if has_record(s, year, month, login) {
        Some(s[record_index(s, year, month, login)])
    } else {
        None
    }
}

/// The most recent record of `login`, if `s` holds any.
pub open spec fn latest_record(s: Seq<ScoreView>, login: Seq<char>) -> Option<ScoreView> {
    if has_login(s, login) {
        Some(s[latest_index(s, login)])
    } else {
        None
    }
}

/// The record that an award leaves for the contributor in the period, or the
/// error it ends with.
pub open spec fn award_outcome(
    s: Seq<ScoreView>,
    login: Seq<char>,
    github_id: int,
    student_name: Seq<char>,
    points: int,
    year: int,
    month: int,
) -> Result<ScoreView, TaskError> {
    match award_plan(
        current_record(s, year, month, login),
        latest_record(s, login),
        login,
        github_id,
        student_name,
        points,
        year,
        month,
    ) {
        Ok(ScoreWriteView::Update(rec)) => Ok(rec),
        Ok(ScoreWriteView::Insert(rec)) => Ok(rec),
        Err(e) => Err(e),
    }
}

/// The ledger after an award: the record of the period replaced by the
/// credited one, or the opening record added at the end. A failed award
/// leaves the ledger as it was.
pub open spec fn ledger_after_award(
    s: Seq<ScoreView>,
    login: Seq<char>,
    github_id: int,
    student_name: Seq<char>,
    points: int,
    year: int,
    month: int,
) -> Seq<ScoreView> {
    match award_outcome(s, login, github_id, student_name, points, year, month) {
        Ok(rec) => if has_record(s, year, month, login) {
            s.update(record_index(s, year, month, login), rec)
        } else {
            s.push(rec)
        },
        Err(_) => s,
    }
}

/// With one record per key, a position that holds the key is the position.
pub proof fn lemma_record_index(s: Seq<ScoreView>, i: int, year: int, month: int, login: Seq<char>)
    requires
        unique_keys(s),
        key_at(s, i, year, month, login),
    ensures
        has_record(s, year, month, login),
        record_index(s, year, month, login) == i,
        current_record(s, year, month, login) == Some(s[i]),
{
    let k = record_index(s, year, month, login);
    assert(key_at(s, k, year, month, login));
    assert(s[k].has_key(s[i].year, s[i].month, s[i].github_login));
}

/// With one record per key, a position that holds the most recent record of
/// a contributor is the position.
pub proof fn lemma_latest_index(s: Seq<ScoreView>, i: int, login: Seq<char>)
    requires
        unique_keys(s),
        is_latest_at(s, i, login),
    ensures
        has_login(s, login),
        latest_index(s, login) == i,
        latest_record(s, login) == Some(s[i]),
{
    let k = latest_index(s, login);
    assert(login_at(s, i, login));
    assert(is_latest_at(s, k, login));
    assert(login_at(s, k, login));
    assert(s[k].not_later_than(s[i]));
    assert(s[i].not_later_than(s[k]));
    assert(s[k].has_key(s[i].year, s[i].month, s[i].github_login));
}

/// Among the first `n` records, a contributor with any record has a most
/// recent one.
proof fn lemma_latest_among(s: Seq<ScoreView>, login: Seq<char>, n: int) -> (i: int)
    requires
        0 <= n <= s.len(),
        exists|j: int| 0 <= j < n && login_at(s, j, login),
    ensures
        0 <= i < n,
        login_at(s, i, login),
        forall|j: int| 0 <= j < n && #[trigger] login_at(s, j, login) ==> s[j].not_later_than(s[i]),
    decreases n,
{
    let last = n - 1;
    if exists|j: int| 0 <= j < last && login_at(s, j, login) {
        let best = lemma_latest_among(s, login, last);
        if login_at(s, last, login) && !s[last].not_later_than(s[best]) {
            last
        } else {
            best
        }
    } else {
        last
    }
}

/// A contributor with any record has a most recent one, and
/// [`latest_index`] is its position.
pub proof fn law_latest_exists(s: Seq<ScoreView>, login: Seq<char>)
    requires
        has_login(s, login),
    ensures
        is_latest_at(s, latest_index(s, login), login),
        latest_record(s, login) is Some,
        latest_record(s, login)->Some_0.github_login == login,
{
    let witness = choose|j: int| login_at(s, j, login);
    assert(0 <= witness < s.len() && login_at(s, witness, login));
    let best = lemma_latest_among(s, login, s.len() as int);
    assert(is_latest_at(s, best, login));
}

/// A record added under a key that is free leaves one record per key.
pub proof fn lemma_push_keeps_unique(s: Seq<ScoreView>, rec: ScoreView)
    requires
        unique_keys(s),
        !has_record(s, rec.year, rec.month, rec.github_login),
    ensures
        unique_keys(s.push(rec)),
{
    let t = s.push(rec);
    assert forall|i: int, j: int|
        #![trigger t[i], t[j]]
        0 <= i < t.len() && 0 <= j < t.len() && t[i].has_key(
            t[j].year,
            t[j].month,
            t[j].github_login,
        ) implies i == j by {
        if i < s.len() && j < s.len() {
            assert(s[i] == t[i] && s[j] == t[j]);
        } else if i < s.len() {
            assert(key_at(s, i, rec.year, rec.month, rec.github_login));
        } else if j < s.len() {
            assert(key_at(s, j, rec.year, rec.month, rec.github_login));
        }
    }
}

/// A record replaced by one of the same key leaves one record per key.
pub proof fn lemma_update_keeps_unique(s: Seq<ScoreView>, i: int, rec: ScoreView)
    requires
        unique_keys(s),
        key_at(s, i, rec.year, rec.month, rec.github_login),
    ensures
        unique_keys(s.update(i, rec)),
{
    let t = s.update(i, rec);
    assert forall|a: int, b: int|
        #![trigger t[a], t[b]]
        0 <= a < t.len() && 0 <= b < t.len() && t[a].has_key(
            t[b].year,
            t[b].month,
            t[b].github_login,
        ) implies a == b by {
        assert(s[a].has_key(s[b].year, s[b].month, s[b].github_login));
    }
}

/// The views of the records of a ledger, in the order they were added.
pub open spec fn views_of(records: Seq<ScoreRecord>) -> Seq<ScoreView> {
    records.map_values(|r: ScoreRecord| r@)
}

/// The ledger. It never holds two records of one contributor and period.
pub struct ScoreStorage {
    records: Vec<ScoreRecord>,
}

impl View for ScoreStorage {
    type V = Seq<ScoreView>;

    closed spec fn view(&self) -> Seq<ScoreView> {
        views_of(self.records@)
    }
}

impl ScoreStorage {
    /// What holds of every ledger.
    #[verifier::type_invariant]
    pub open spec fn one_record_per_key(&self) -> bool {
        unique_keys(self@)
    }

    /// An empty ledger.
    pub fn new() -> (ledger: ScoreStorage)
        ensures
            ledger@ == Seq::<ScoreView>::empty(),
    {
        ScoreStorage { records: Vec::new() }
    }

    /// The number of records.
    pub fn len(&self) -> (n: usize)
        ensures
            n == self@.len(),
            unique_keys(self@),
    {
        proof {
            use_type_invariant(self);
        }
        self.records.len()
    }

    /// All records, in the order they were added.
    pub fn records(&self) -> (all: Vec<ScoreRecord>)
        ensures
            views_of(all@) == self@,
            unique_keys(self@),
    {
        proof {
            use_type_invariant(self);
        }
        let mut all: Vec<ScoreRecord> = Vec::new();
        let mut i: usize = 0;
        while i < self.records.len()
            invariant
                i <= self.records.len(),
                all@ == self.records@.take(i as int),
            decreases self.records.len() - i,
        {
            all.push(self.records[i].clone());
            i += 1;
            proof {
                assert(all@ =~= self.records@.take(i as int));
            }
        }
        proof {
            assert(self.records@.take(i as int) =~= self.records@);
        }
        all
    }

    fn position(&self, year: i32, month: i32, login: &String) -> (found: Option<usize>)
        ensures
            match found {
                Some(i) => key_at(self@, i as int, year as int, month as int, login@),
                None => !has_record(self@, year as int, month as int, login@),
            },
    {
        let mut i: usize = 0;
        while i < self.records.len()
            invariant
                i <= self.records.len(),
                forall|j: int| 0 <= j < i ==> !key_at(self@, j, year as int, month as int, login@),
            decreases self.records.len() - i,
        {
            if self.records[i].has_key(year, month, login) {
                return Some(i);
            }
            i += 1;
        }
        None
    }

    fn latest_position(&self, login: &String) -> (found: Option<usize>)
        ensures
            match found {
                Some(i) => is_latest_at(self@, i as int, login@),
                None => !has_login(self@, login@),
            },
    {
        let mut best: Option<usize> = None;
        let mut i: usize = 0;
        while i < self.records.len()
            invariant
                i <= self.records.len(),
                match best {
                    Some(b) => b < i && login_at(self@, b as int, login@) && forall|j: int|
                        0 <= j < i && #[trigger] login_at(self@, j, login@)
                            ==> self@[j].not_later_than(self@[b as int]),
                    None => forall|j: int| 0 <= j < i ==> !login_at(self@, j, login@),
                },
            decreases self.records.len() - i,
        {
            if self.records[i].github_login == *login {
                match best {
                    Some(b) => {
                        if !self.records[i].not_later_than(&self.records[b]) {
                            best = Some(i);
                        }
                    },
                    None => {
                        best = Some(i);
                    },
                }
            }
            i += 1;
        }
        best
    }

    /// The record of `login` for the period, if there is one.
    pub fn find_score(&self, year: i32, month: i32, login: &String) -> (found: Option<ScoreRecord>)
        ensures
            record_view(found) == current_record(self@, year as int, month as int, login@),
            unique_keys(self@),
    {
        proof {
            use_type_invariant(self);
        }
        match self.position(year, month, login) {
            Some(i) => {
                proof {
                    lemma_record_index(self@, i as int, year as int, month as int, login@);
                }
                Some(self.records[i].clone())
            },
            None => None,
        }
    }

    /// The most recent record of `login`, if there is any: the one of the
    /// latest period, however long ago that was.
    pub fn find_latest_score(&self, login: &String) -> (found: Option<ScoreRecord>)
        ensures
            record_view(found) == latest_record(self@, login@),
            unique_keys(self@),
    {
        proof {
            use_type_invariant(self);
        }
        match self.latest_position(login) {
            Some(i) => {
                proof {
                    lemma_latest_index(self@, i as int, login@);
                }
                Some(self.records[i].clone())
            },
            None => None,
        }
    }

    /// Adds a record. The ledger refuses a second record of one contributor
    /// and period.
    pub fn insert_score(&mut self, record: ScoreRecord) -> (done: Result<(), TaskError>)
        ensures
            unique_keys(final(self)@),
            has_record(old(self)@, record@.year, record@.month, record@.github_login) ==> done
                == Err::<(), TaskError>(TaskError::StorageError) && final(self)@ == old(self)@,
            !has_record(old(self)@, record@.year, record@.month, record@.github_login) ==> done
                is Ok && final(self)@ == old(self)@.push(record@),
    {
        proof {
            use_type_invariant(&*self);
        }
        match self.position(record.year, record.month, &record.github_login) {
            Some(_) => Err(TaskError::StorageError),
            None => {
                let ghost before = self@;
                let ghost added = record@;
                // `push` may unwind, and the ledger has to be valid even then:
                // the records are taken out for the push and put back after it.
                let mut records: Vec<ScoreRecord> = Vec::new();
                core::mem::swap(&mut self.records, &mut records);
                records.push(record);
                proof {
                    assert(views_of(records@) =~= before.push(added));
                    lemma_push_keeps_unique(before, added);
                }
                core::mem::swap(&mut self.records, &mut records);
                Ok(())
            },
        }
    }

    /// Replaces the record of the contributor and period of `record` by
    /// `record`. The ledger refuses the write where it holds no such record.
    pub fn update_score(&mut self, record: ScoreRecord) -> (done: Result<(), TaskError>)
        ensures
            unique_keys(final(self)@),
            has_record(old(self)@, record@.year, record@.month, record@.github_login) ==> done
                is Ok && final(self)@ == old(self)@.update(
                record_index(old(self)@, record@.year, record@.month, record@.github_login),
                record@,
            ),
            !has_record(old(self)@, record@.year, record@.month, record@.github_login) ==> done
                == Err::<(), TaskError>(TaskError::StorageError) && final(self)@ == old(self)@,
    {
        proof {
            use_type_invariant(&*self);
        }
        match self.position(record.year, record.month, &record.github_login) {
            Some(i) => {
                let ghost before = self@;
                let ghost written = record@;
                proof {
                    lemma_record_index(
                        before,
                        i as int,
                        written.year,
                        written.month,
                        written.github_login,
                    );
                }
                // The records are taken out for the write, as for a push.
                let mut records: Vec<ScoreRecord> = Vec::new();
                core::mem::swap(&mut self.records, &mut records);
                records.set(i, record);
                proof {
                    assert(views_of(records@) =~= before.update(i as int, written));
                    lemma_update_keeps_unique(before, i as int, written);
                }
                core::mem::swap(&mut self.records, &mut records);
                Ok(())
            },
            None => Err(TaskError::StorageError),
        }
    }

    /// Awards `points` to `login` for the given period, as one step: the
    /// record of the period is read and written with nothing in between.
    ///
    /// With a record of the period, the points are added to its `new_score`.
    /// Without one, a record is opened whose `carryover_score` is the balance
    /// of the contributor's most recent record, or 0 where there is none. The
    /// result is the record as it stands after the award. Where a number does
    /// not fit its column the award fails and the ledger stays as it was.
    pub fn award(
        &mut self,
        login: String,
        github_id: i64,
        student_name: String,
        points: i32,
        year: i32,
        month: i32,
    ) -> (written: Result<ScoreRecord, TaskError>)
        ensures
            unique_keys(final(self)@),
            final(self)@ == ledger_after_award(
                old(self)@,
                login@,
                github_id as int,
                student_name@,
                points as int,
                year as int,
                month as int,
            ),
            match award_outcome(
                old(self)@,
                login@,
                github_id as int,
                student_name@,
                points as int,
                year as int,
                month as int,
            ) {
                Ok(rec) => written is Ok && written->Ok_0@ == rec,
                Err(e) => written == Err::<ScoreRecord, TaskError>(e),
            },
    {
        let current = self.find_score(year, month, &login);
        let latest = self.find_latest_score(&login);
        match plan_award(current, latest, login, github_id, student_name, points, year, month) {
            Ok(ScoreWrite::Update(rec)) => {
                let copy = rec.clone();
                match self.update_score(rec) {
                    Ok(()) => Ok(copy),
                    Err(e) => Err(e),
                }
            },
            Ok(ScoreWrite::Insert(rec)) => {
                let copy = rec.clone();
                match self.insert_score(rec) {
                    Ok(()) => Ok(copy),
                    Err(e) => Err(e),
                }
            },
            Err(e) => Err(e),
        }
    }
}

} // verus!

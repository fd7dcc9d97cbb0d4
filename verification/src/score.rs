//! A contributor's score for one period, and the decision an award comes
//! down to once the ledger has been read.
use crate::errors::TaskError;
use vstd::prelude::*;

verus! {

/// The points a contributor has in one period (a year and a month).
///
/// `new_score` is what was earned within the period; `carryover_score` is the
/// balance the contributor brought along from the most recent earlier record.
#[derive(Debug, PartialEq, Eq)]
pub struct ScoreRecord {
    pub year: i32,
    pub month: i32,
    pub github_login: String,
    pub github_id: i64,
    pub student_name: String,
    pub new_score: i32,
    pub carryover_score: i32,
}

/// What a [`ScoreRecord`] stands for.
pub struct ScoreView {
    pub year: int,
    pub month: int,
    pub github_login: Seq<char>,
    pub github_id: int,
    pub student_name: Seq<char>,
    pub new_score: int,
    pub carryover_score: int,
}

impl View for ScoreRecord {
    type V = ScoreView;

    open spec fn view(&self) -> ScoreView {
        ScoreView {
            year: self.year as int,
            month: self.month as int,
            github_login: self.github_login@,
            github_id: self.github_id as int,
            student_name: self.student_name@,
            new_score: self.new_score as int,
            carryover_score: self.carryover_score as int,
        }
    }
}

/// Whether `n` can be stored in a score column.
pub open spec fn fits_score(n: int) -> bool {
    i32::MIN <= n <= i32::MAX
}

impl ScoreView {
    /// What the contributor has at the end of the period, and what the next
    /// record of the same contributor starts from.
    pub open spec fn balance(self) -> int {
        self.new_score + self.carryover_score
    }

    /// Whether this is the record of `login` for the given period.
    pub open spec fn has_key(self, year: int, month: int, login: Seq<char>) -> bool {
        self.year == year && self.month == month && self.github_login == login
    }

    /// Whether the period of this record is that of `other` or an earlier one.
    pub open spec fn not_later_than(self, other: ScoreView) -> bool {
        self.year < other.year || (self.year == other.year && self.month <= other.month)
    }

    /// This record with `points` more in `new_score`.
    pub open spec fn credited(self, points: int) -> ScoreView {
        ScoreView { new_score: self.new_score + points, ..self }
    }
}

/// The first record of a contributor in a period.
pub open spec fn opening_record(
    login: Seq<char>,
    github_id: int,
    student_name: Seq<char>,
    points: int,
    year: int,
    month: int,
    carryover: int,
) -> ScoreView {
    ScoreView {
        year,
        month,
        github_login: login,
        github_id,
        student_name,
        new_score: points,
        carryover_score: carryover,
    }
}

/// The write that an award asks of the ledger.
#[derive(Debug, PartialEq, Eq)]
pub enum ScoreWrite {
    /// Replace the record of the period by this one.
    Update(ScoreRecord),
    /// Add this record: the contributor has none in the period yet.
    Insert(ScoreRecord),
}

/// What a [`ScoreWrite`] stands for.
pub enum ScoreWriteView {
    Update(ScoreView),
    Insert(ScoreView),
}

impl View for ScoreWrite {
    type V = ScoreWriteView;

    open spec fn view(&self) -> ScoreWriteView {
        match self {
            ScoreWrite::Update(r) => ScoreWriteView::Update(r@),
            ScoreWrite::Insert(r) => ScoreWriteView::Insert(r@),
        }
    }
}

/// The views of an optional record.
pub open spec fn record_view(r: Option<ScoreRecord>) -> Option<ScoreView> {
    match r {
        Some(r) => Some(r@),
        None => None,
    }
}

/// The balance a new record starts from: that of the most recent record of
/// the contributor, or nothing where there is none.
pub open spec fn carryover_from(latest: Option<ScoreView>) -> int {
    match latest {
        Some(l) => l.balance(),
        None => 0,
    }
}

/// The rule of an award. `current` is the contributor's record of the period
/// of the award, if there is one; `latest` is the contributor's most recent
/// record of any period.
///
/// With a record of the period, the points are added to it and nothing else
/// changes. Without one, a record is opened with the points as `new_score`
/// and the balance of `latest` as `carryover_score`, however long ago that
/// record was written. A number that does not fit its column is a storage
/// error.
pub open spec fn award_plan(
    current: Option<ScoreView>,
    latest: Option<ScoreView>,
    login: Seq<char>,
    github_id: int,
    student_name: Seq<char>,
    points: int,
    year: int,
    month: int,
) -> Result<ScoreWriteView, TaskError> {
    match current {
        Some(rec) => if fits_score(rec.new_score + points) {
            Ok(ScoreWriteView::Update(rec.credited(points)))
        } else {
            Err(TaskError::StorageError)
        },
        None => if fits_score(carryover_from(latest)) {
            Ok(
                ScoreWriteView::Insert(
                    opening_record(
                        login,
                        github_id,
                        student_name,
                        points,
                        year,
                        month,
                        carryover_from(latest),
                    ),
                ),
            )
        } else {
            Err(TaskError::StorageError)
        },
    }
}

impl Clone for ScoreRecord {
    fn clone(&self) -> (copy: Self)
        ensures
            copy == *self,
    {
        ScoreRecord {
            year: self.year,
            month: self.month,
            github_login: self.github_login.clone(),
            github_id: self.github_id,
            student_name: self.student_name.clone(),
            new_score: self.new_score,
            carryover_score: self.carryover_score,
        }
    }
}

impl ScoreRecord {
    /// The balance of this record: `new_score + carryover_score`.
    pub fn score_balance(&self) -> (balance: i64)
        ensures
            balance == self@.balance(),
    {
        self.new_score as i64 + self.carryover_score as i64
    }

    /// Whether this is the record of `login` for the given period.
    pub fn has_key(&self, year: i32, month: i32, login: &String) -> (yes: bool)
        ensures
            yes == self@.has_key(year as int, month as int, login@),
    {
        self.year == year && self.month == month && self.github_login == *login
    }

    /// Whether the period of this record is that of `other` or an earlier one.
    pub fn not_later_than(&self, other: &ScoreRecord) -> (yes: bool)
        ensures
            yes == self@.not_later_than(other@),
    {
        self.year < other.year || (self.year == other.year && self.month <= other.month)
    }
}

/// Decides what an award writes, from what the ledger holds for the
/// contributor. See [`award_plan`] for the rule.
pub fn plan_award(
    current: Option<ScoreRecord>,
    latest: Option<ScoreRecord>,
    login: String,
    github_id: i64,
    student_name: String,
    points: i32,
    year: i32,
    month: i32,
) -> (plan: Result<ScoreWrite, TaskError>)
    ensures
        match award_plan(
            record_view(current),
            record_view(latest),
            login@,
            github_id as int,
            student_name@,
            points as int,
            year as int,
            month as int,
        ) {
            Ok(write) => plan is Ok && plan->Ok_0@ == write,
            Err(e) => plan == Err::<ScoreWrite, TaskError>(e),
        },
{
    match current {
        Some(rec) => {
            match rec.new_score.checked_add(points) {
                Some(sum) => {
                    let mut updated = rec;
                    updated.new_score = sum;
                    Ok(ScoreWrite::Update(updated))
                },
                None => Err(TaskError::StorageError),
            }
        },
        None => {
            let carryover: i64 = match &latest {
                Some(last) => last.score_balance(),
                None => 0,
            };
            if carryover < i32::MIN as i64 || carryover > i32::MAX as i64 {
                Err(TaskError::StorageError)
            } else {
                Ok(
                    ScoreWrite::Insert(
                        ScoreRecord {
                            year,
                            month,
                            github_login: login,
                            github_id,
                            student_name,
                            new_score: points,
                            carryover_score: carryover as i32,
                        },
                    ),
                )
            }
        },
    }
}

} // verus!

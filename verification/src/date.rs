//! The combined Hijri/Gregorian date value and the conversions that build it.
//!
//! Every date is anchored by one canonical day number on the shared axis
//! (day 0 is Gregorian 1937-01-01); both calendar views, the month length
//! and the name fields are derived from it at construction and never drift.

use vstd::prelude::*;

use crate::duration::Duration;
use crate::error::DateError;
use crate::gregorian;
use crate::names;
use crate::umalqura;

verus! {

/// Day number of Hijri 1356-01-01 (Gregorian 1937-03-14), the first day
/// the table covers, on the shared axis.
pub const HIJRI_EPOCH: usize = 72;

/// Whether (`y`, `m`, `d`) is a Hijri calendar date inside the supported
/// window: the year is covered by the table and the day exists in its
/// month.
pub open spec fn hijri_valid(y: int, m: int, d: int) -> bool {
    &&& 1356 <= y <= 1500
    &&& 1 <= m <= 12
    &&& 1 <= d <= umalqura::month_length(y, m)
}

/// Day number of the Hijri date (`y`, `m`, `d`) on the shared axis.
pub open spec fn hijri_day_number(y: int, m: int, d: int) -> int {
    72 + umalqura::month_start(umalqura::month_index(y, m)) + d - 1
}

/// Whether (`y`, `m`, `d`) is a Gregorian date inside the supported entry
/// window of years 1938 through 2076.
pub open spec fn gregorian_in_window(y: int, m: int, d: int) -> bool {
    &&& 1938 <= y <= 2076
    &&& 1 <= m <= 12
    &&& 1 <= d <= gregorian::g_month_length(y, m)
}

/// Weekday of day number `n`: 0 is Monday through 6 is Sunday; day 0 of
/// the axis, 1937-01-01, was a Friday.
pub open spec fn weekday_of(n: int) -> int {
    (n + 4) % 7
}

/// The exact outcome of validating a Hijri triple: the month is checked
/// first, then the year window, then the day against its month's length.
pub open spec fn hijri_validation(y: int, m: int, d: int) -> Result<(), DateError> {
    if !(1 <= m <= 12) {
        Err(DateError::InvalidMonth)
    } else if !(1356 <= y <= 1500) {
        Err(DateError::YearOutOfSupportedRange { min: 1356, max: 1500 })
    } else if !(1 <= d <= umalqura::month_length(y, m)) {
        Err(DateError::InvalidDay)
    } else {
        Ok(())
    }
}

/// The exact outcome of validating a Gregorian triple: the month is
/// checked first, then the year window, then the day against its month's
/// length (leap years included).
pub open spec fn gregorian_validation(y: int, m: int, d: int) -> Result<(), DateError> {
    if !(1 <= m <= 12) {
        Err(DateError::InvalidMonth)
    } else if !(1938 <= y <= 2076) {
        Err(DateError::YearOutOfSupportedRange { min: 1938, max: 2076 })
    } else if !(1 <= d <= gregorian::g_month_length(y, m)) {
        Err(DateError::InvalidDay)
    } else {
        Ok(())
    }
}

/// Checks a Hijri (year, month, day) against the supported window and the
/// table's month lengths; says exactly which check failed.
pub fn valid_hijri_date(year: usize, month: usize, day: usize) -> (r: Result<(), DateError>)
    ensures
        r == hijri_validation(year as int, month as int, day as int),
        r is Ok <==> hijri_valid(year as int, month as int, day as int),
{
    if month < 1 || month > 12 {
        Err(DateError::InvalidMonth)
    } else if year < umalqura::FIRST_YEAR || year > umalqura::LAST_YEAR {
        Err(DateError::YearOutOfSupportedRange { min: umalqura::FIRST_YEAR, max: umalqura::LAST_YEAR })
    } else if day < 1 || day > umalqura::month_length_x(year, month) {
        Err(DateError::InvalidDay)
    } else {
        Ok(())
    }
}

/// Checks a Gregorian (year, month, day) against the supported window and
/// the Gregorian month lengths; says exactly which check failed.
pub fn valid_greorian_date(year_gr: usize, month_gr: usize, day_gr: usize) -> (r: Result<
    (),
    DateError,
>)
    ensures
        r == gregorian_validation(year_gr as int, month_gr as int, day_gr as int),
        r is Ok <==> gregorian_in_window(year_gr as int, month_gr as int, day_gr as int),
{
    if month_gr < 1 || month_gr > 12 {
        Err(DateError::InvalidMonth)
    } else if year_gr < 1938 || year_gr > 2076 {
        Err(DateError::YearOutOfSupportedRange { min: 1938, max: 2076 })
    } else if day_gr < 1 || day_gr > gregorian::g_month_length_x(year_gr, month_gr) {
        Err(DateError::InvalidDay)
    } else {
        Ok(())
    }
}

/// A calendar day, carried in both calendars at once.
///
/// The Hijri fields have no suffix; the Gregorian ones end in `_gr` or
/// `_en`.  All fields are derived from one canonical day number when the
/// value is built; ordering and equality go by that day number alone.
#[derive(Debug)]
pub struct HijriDate {
    /// Hijri day of the month, 1 through the month's length.
    pub day: usize,
    /// Hijri month, 1 through 12.
    pub month: usize,
    /// Length in days of the Hijri month, 29 or 30, from the table.
    pub month_len: usize,
    /// Hijri year, 1356 through 1500.
    pub year: usize,
    /// Arabic weekday name, reshaped for display.
    pub day_name: String,
    /// Arabic month name, reshaped for display.
    pub month_name: String,
    /// Gregorian day of the month.
    pub day_gr: usize,
    /// Gregorian month, 1 through 12.
    pub month_gr: usize,
    /// Gregorian year.
    pub year_gr: usize,
    /// English weekday name.
    pub day_name_en: String,
    /// English month name.
    pub month_name_en: String,
    /// The canonical day number of this date on the shared axis: the
    /// single source of truth that ordering, arithmetic and both calendar
    /// views are derived from.
    pub canonical: usize,
}

impl HijriDate {
    /// The canonical day number this date stands for.
    pub open spec fn canonical_day(self) -> int {
        self.canonical as int
    }

    /// Well-formedness: both calendar views and all derived fields agree
    /// with the one canonical day number.
    pub open spec fn wf(self) -> bool {
        &&& hijri_valid(self.year as int, self.month as int, self.day as int)
        &&& self.canonical_day() == hijri_day_number(
            self.year as int,
            self.month as int,
            self.day as int,
        )
        &&& self.month_len == umalqura::month_length(self.year as int, self.month as int)
        &&& gregorian::g_valid(self.year_gr as int, self.month_gr as int, self.day_gr as int)
        &&& gregorian::g_day_number(self.year_gr as int, self.month_gr as int, self.day_gr as int)
            == self.canonical_day()
        &&& self.day_name_en@ == names::weekday_name_en(weekday_of(self.canonical_day()))
        &&& self.day_name@ == names::reshaped(names::weekday_name_ar(weekday_of(self.canonical_day())))
        &&& self.month_name_en@ == names::g_month_name_en(self.month_gr as int)
        &&& self.month_name@ == names::reshaped(names::hijri_month_name(self.month as int))
    }
}

/// Every valid Hijri date's day number lies on the covered axis, and the
/// whole axis lies inside the Gregorian years the crate computes with.
pub proof fn lemma_canonical_in_axis(y: int, m: int, d: int)
    requires
        hijri_valid(y, m, d),
    ensures
        72 <= hijri_day_number(y, m, d),
        hijri_day_number(y, m, d) < 72 + umalqura::month_start(1740),
        72 + umalqura::month_start(1740) <= gregorian::days_before_year(2081),
{
    let i = umalqura::month_index(y, m);
    umalqura::lemma_month_index_bijective(y, m);
    umalqura::lemma_month_start_monotone(0, i);
    assert(umalqura::month_start(i + 1) == umalqura::month_start(i) + umalqura::month_length_at(
        i,
    ));
    umalqura::lemma_month_start_monotone(i + 1, 1740);
    umalqura::lemma_month_start_monotone(0, 1740);
    gregorian::lemma_days_before_year_monotone(1937, 2081);
}

/// Every Gregorian date of the supported entry window lies on the covered
/// axis: the window was chosen to fit inside the table.
pub proof fn lemma_window_on_axis(y: int, m: int, d: int)
    requires
        gregorian_in_window(y, m, d),
    ensures
        72 <= gregorian::g_day_number(y, m, d),
        gregorian::g_day_number(y, m, d) < 72 + umalqura::month_start(1740),
{
    gregorian::lemma_day_number_in_year(y, m, d);
    gregorian::lemma_days_before_year_monotone(1937, 1938);
    gregorian::lemma_days_before_year_monotone(1938, y);
    gregorian::lemma_days_before_year_monotone(y + 1, 2077);
    gregorian::lemma_days_before_year_monotone(1937, 2077);
    umalqura::lemma_table_at_least();
}

/// Two valid Hijri dates with the same day number are the same date: the
/// axis carries each Hijri calendar day exactly once.
pub proof fn lemma_hijri_day_number_injective(
    y1: int,
    m1: int,
    d1: int,
    y2: int,
    m2: int,
    d2: int,
)
    requires
        hijri_valid(y1, m1, d1),
        hijri_valid(y2, m2, d2),
        hijri_day_number(y1, m1, d1) == hijri_day_number(y2, m2, d2),
    ensures
        y1 == y2,
        m1 == m2,
        d1 == d2,
{
    let i1 = umalqura::month_index(y1, m1);
    let i2 = umalqura::month_index(y2, m2);
    umalqura::lemma_month_index_bijective(y1, m1);
    umalqura::lemma_month_index_bijective(y2, m2);
    if i1 < i2 {
        assert(umalqura::month_start(i1 + 1) == umalqura::month_start(i1)
            + umalqura::month_length_at(i1));
        umalqura::lemma_month_start_monotone(i1 + 1, i2);
        assert(false);
    }
    if i2 < i1 {
        assert(umalqura::month_start(i2 + 1) == umalqura::month_start(i2)
            + umalqura::month_length_at(i2));
        umalqura::lemma_month_start_monotone(i2 + 1, i1);
        assert(false);
    }
}

/// Builds the full date of day number `n`: the month search over the
/// table, the Gregorian decomposition, and the derived name fields.
fn from_day_number(n: usize) -> (hd: HijriDate)
    requires
        72 <= n,
        n < 72 + umalqura::month_start(1740),
    ensures
        hd.wf(),
        hd.canonical_day() == n,
{
    proof {
        umalqura::lemma_month_start_monotone(0, 1740);
        gregorian::lemma_days_before_year_monotone(1937, 2081);
    }
    let (year, month, day) = umalqura::month_of_day(n - HIJRI_EPOCH);
    let (year_gr, month_gr, day_gr) = gregorian::g_date_of_day(n);
    let month_len = umalqura::month_length_x(year, month);
    let wd = (n + 4) % 7;
    let day_name_en = names::weekday_name_en_x(wd);
    let day_name = names::weekday_name_ar_x(wd);
    let month_name_en = names::g_month_name_en_x(month_gr);
    let month_name = names::hijri_month_name_x(month);
    HijriDate {
        day,
        month,
        month_len,
        year,
        day_name,
        month_name,
        day_gr,
        month_gr,
        year_gr,
        day_name_en,
        month_name_en,
        canonical: n,
    }
}

impl HijriDate {
    /// Builds the date of the Hijri (`year`, `month`, `day`).
    ///
    /// Succeeds exactly on the valid Hijri dates of the supported window;
    /// any other input is rejected with the failure named by the
    /// validation, never adjusted.
    pub fn from_hijri(year: usize, month: usize, day: usize) -> (r: Result<HijriDate, DateError>)
        ensures
            r is Ok <==> hijri_valid(year as int, month as int, day as int),
            r is Err ==> r == Err::<HijriDate, DateError>(
                hijri_validation(year as int, month as int, day as int)->Err_0,
            ),
            r is Ok ==> (r->Ok_0).wf(),
            r is Ok ==> (r->Ok_0).year == year && (r->Ok_0).month == month && (r->Ok_0).day
                == day,
            r is Ok ==> (r->Ok_0).canonical_day() == hijri_day_number(
                year as int,
                month as int,
                day as int,
            ),
    {
        match valid_hijri_date(year, month, day) {
            Err(e) => Err(e),
            Ok(()) => {
                proof {
                    lemma_canonical_in_axis(year as int, month as int, day as int);
                    umalqura::lemma_month_start_monotone(0, 1740);
                }
                let start = umalqura::month_start_x(year, month);
                let n = HIJRI_EPOCH + start + day - 1;
                let hd = from_day_number(n);
                proof {
                    lemma_hijri_day_number_injective(
                        hd.year as int,
                        hd.month as int,
                        hd.day as int,
                        year as int,
                        month as int,
                        day as int,
                    );
                }
                Ok(hd)
            },
        }
    }

    /// Builds the date of the Gregorian (`year_gr`, `month_gr`, `day_gr`).
    ///
    /// Succeeds exactly on the valid Gregorian dates of the supported
    /// window; any other input is rejected with the failure named by the
    /// validation, never adjusted.
    pub fn from_gr(year_gr: usize, month_gr: usize, day_gr: usize) -> (r: Result<
        HijriDate,
        DateError,
    >)
        ensures
            r is Ok <==> gregorian_in_window(year_gr as int, month_gr as int, day_gr as int),
            r is Err ==> r == Err::<HijriDate, DateError>(
                gregorian_validation(year_gr as int, month_gr as int, day_gr as int)->Err_0,
            ),
            r is Ok ==> (r->Ok_0).wf(),
            r is Ok ==> (r->Ok_0).year_gr == year_gr && (r->Ok_0).month_gr == month_gr && (
            r->Ok_0).day_gr == day_gr,
            r is Ok ==> (r->Ok_0).canonical_day() == gregorian::g_day_number(
                year_gr as int,
                month_gr as int,
                day_gr as int,
            ),
    {
        match valid_greorian_date(year_gr, month_gr, day_gr) {
            Err(e) => Err(e),
            Ok(()) => {
                proof {
                    lemma_window_on_axis(year_gr as int, month_gr as int, day_gr as int);
                }
                let n = gregorian::g_day_number_x(year_gr, month_gr, day_gr);
                let hd = from_day_number(n);
                proof {
                    gregorian::lemma_g_day_number_injective(
                        hd.year_gr as int,
                        hd.month_gr as int,
                        hd.day_gr as int,
                        year_gr as int,
                        month_gr as int,
                        day_gr as int,
                    );
                }
                Ok(hd)
            },
        }
    }

    /// Days from `other` to this date: positive exactly when this date is
    /// the later one.
    pub fn sub_date(&self, other: &HijriDate) -> (r: Duration)
        requires
            self.wf(),
            other.wf(),
        ensures
            r.spec_days() == self.canonical_day() - other.canonical_day(),
    {
        proof {
            lemma_canonical_in_axis(self.year as int, self.month as int, self.day as int);
            lemma_canonical_in_axis(other.year as int, other.month as int, other.day as int);
            umalqura::lemma_month_start_monotone(0, 1740);
        }
        Duration::days(self.canonical as i64 - other.canonical as i64)
    }

    /// The date `d` days after this one.
    ///
    /// Succeeds exactly when the shifted day number still lies on the
    /// covered axis; otherwise the shift is rejected as out of the table's
    /// bounds.
    pub fn add_duration(&self, d: Duration) -> (r: Result<HijriDate, DateError>)
        requires
            self.wf(),
        ensures
            r is Ok <==> 72 <= self.canonical_day() + d.spec_days() < 72 + umalqura::month_start(
                1740,
            ),
            r is Ok ==> (r->Ok_0).wf(),
            r is Ok ==> (r->Ok_0).canonical_day() == self.canonical_day() + d.spec_days(),
            r is Err ==> r == Err::<HijriDate, DateError>(DateError::DateOutOfTableBounds),
    {
        proof {
            lemma_canonical_in_axis(self.year as int, self.month as int, self.day as int);
            umalqura::lemma_month_start_monotone(0, 1740);
        }
        let total = umalqura::table_days();
        let nd = d.num_days();
        let c = self.canonical;
        let lo: i64 = 72 - c as i64;
        let hi: i64 = 72 + total as i64 - c as i64;
        if nd >= lo && nd < hi {
            let n = (c as i64 + nd) as usize;
            Ok(from_day_number(n))
        } else {
            Err(DateError::DateOutOfTableBounds)
        }
    }

    /// The date `d` days before this one.
    ///
    /// Succeeds exactly when the shifted day number still lies on the
    /// covered axis; otherwise the shift is rejected as out of the table's
    /// bounds.
    pub fn sub_duration(&self, d: Duration) -> (r: Result<HijriDate, DateError>)
        requires
            self.wf(),
        ensures
            r is Ok <==> 72 <= self.canonical_day() - d.spec_days() < 72 + umalqura::month_start(
                1740,
            ),
            r is Ok ==> (r->Ok_0).wf(),
            r is Ok ==> (r->Ok_0).canonical_day() == self.canonical_day() - d.spec_days(),
            r is Err ==> r == Err::<HijriDate, DateError>(DateError::DateOutOfTableBounds),
    {
        proof {
            lemma_canonical_in_axis(self.year as int, self.month as int, self.day as int);
            umalqura::lemma_month_start_monotone(0, 1740);
        }
        let total = umalqura::table_days();
        let nd = d.num_days();
        let c = self.canonical;
        let hi: i64 = c as i64 - 72;
        let lo: i64 = c as i64 + 1 - 72 - total as i64;
        if nd >= lo && nd <= hi {
            let n = (c as i64 - nd) as usize;
            Ok(from_day_number(n))
        } else {
            Err(DateError::DateOutOfTableBounds)
        }
    }
}

impl PartialEq for HijriDate {
    /// Two dates are equal exactly when they denote the same day number,
    /// whichever constructor produced them.
    fn eq(&self, other: &HijriDate) -> (r: bool) {
        self.canonical == other.canonical
    }
}

impl vstd::std_specs::cmp::PartialEqSpecImpl for HijriDate {
    open spec fn obeys_eq_spec() -> bool {
        true
    }

    open spec fn eq_spec(&self, other: &HijriDate) -> bool {
        self.canonical_day() == other.canonical_day()
    }
}

impl PartialOrd for HijriDate {
    /// Dates are ordered by their day number alone.
    fn partial_cmp(&self, other: &HijriDate) -> (r: Option<core::cmp::Ordering>) {
        if self.canonical < other.canonical {
            Some(core::cmp::Ordering::Less)
        } else if self.canonical == other.canonical {
            Some(core::cmp::Ordering::Equal)
        } else {
            Some(core::cmp::Ordering::Greater)
        }
    }
}

impl vstd::std_specs::cmp::PartialOrdSpecImpl for HijriDate {
    open spec fn obeys_partial_cmp_spec() -> bool {
        true
    }

    open spec fn partial_cmp_spec(&self, other: &HijriDate) -> Option<core::cmp::Ordering> {
        if self.canonical_day() < other.canonical_day() {
            Some(core::cmp::Ordering::Less)
        } else if self.canonical_day() == other.canonical_day() {
            Some(core::cmp::Ordering::Equal)
        } else {
            Some(core::cmp::Ordering::Greater)
        }
    }
}

/// Two well-formed dates with the same canonical day number agree on every
/// field: each view is derived from the day number alone, so the day
/// number determines the whole date.
pub proof fn lemma_canonical_determines_date(a: HijriDate, b: HijriDate)
    requires
        a.wf(),
        b.wf(),
        a.canonical_day() == b.canonical_day(),
    ensures
        a.year == b.year && a.month == b.month && a.day == b.day && a.month_len == b.month_len,
        a.year_gr == b.year_gr && a.month_gr == b.month_gr && a.day_gr == b.day_gr,
        a.day_name@ == b.day_name@ && a.month_name@ == b.month_name@,
        a.day_name_en@ == b.day_name_en@ && a.month_name_en@ == b.month_name_en@,
{
    lemma_hijri_day_number_injective(
        a.year as int,
        a.month as int,
        a.day as int,
        b.year as int,
        b.month as int,
        b.day as int,
    );
    gregorian::lemma_g_day_number_injective(
        a.year_gr as int,
        a.month_gr as int,
        a.day_gr as int,
        b.year_gr as int,
        b.month_gr as int,
        b.day_gr as int,
    );
}

/// Round trip through the Gregorian view: a date rebuilt from another's
/// Gregorian triple denotes the same day, and so is the same date.
pub proof fn lemma_round_trip_gregorian(a: HijriDate, b: HijriDate)
    requires
        a.wf(),
        b.wf(),
        b.year_gr == a.year_gr,
        b.month_gr == a.month_gr,
        b.day_gr == a.day_gr,
    ensures
        b.canonical_day() == a.canonical_day(),
        b.year == a.year && b.month == a.month && b.day == a.day,
{
    lemma_canonical_determines_date(a, b);
}

/// Round trip through the Hijri view: a date rebuilt from another's Hijri
/// triple denotes the same day, and so is the same date.
pub proof fn lemma_round_trip_hijri(a: HijriDate, b: HijriDate)
    requires
        a.wf(),
        b.wf(),
        b.year == a.year,
        b.month == a.month,
        b.day == a.day,
    ensures
        b.canonical_day() == a.canonical_day(),
        b.year_gr == a.year_gr && b.month_gr == a.month_gr && b.day_gr == a.day_gr,
{
    lemma_canonical_determines_date(a, b);
}

/// The earlier canonical day orders its date strictly earlier, and the
/// difference taken later minus earlier is a positive number of days.
pub proof fn lemma_order_follows_canonical(a: HijriDate, b: HijriDate)
    requires
        a.wf(),
        b.wf(),
        a.canonical_day() < b.canonical_day(),
    ensures
        vstd::std_specs::cmp::PartialOrdSpec::partial_cmp_spec(&a, &b) == Some(
            core::cmp::Ordering::Less,
        ),
        b.canonical_day() - a.canonical_day() > 0,
{
}

/// Shifting a date by some days and back lands on the very same date.
pub proof fn lemma_shift_inverse(a: HijriDate, b: HijriDate, c: HijriDate, n: int)
    requires
        a.wf(),
        b.wf(),
        c.wf(),
        b.canonical_day() == a.canonical_day() + n,
        c.canonical_day() == b.canonical_day() - n,
    ensures
        c.canonical_day() == a.canonical_day(),
        c.year == a.year && c.month == a.month && c.day == a.day,
        c.year_gr == a.year_gr && c.month_gr == a.month_gr && c.day_gr == a.day_gr,
{
    lemma_canonical_determines_date(a, c);
}

} // verus!


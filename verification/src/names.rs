//! Weekday and month names in both calendars.
//!
//! The Arabic names are reshaped for right-to-left rendering by an outside
//! crate; everything else is a fixed dictionary.  Weekdays are indexed 0
//! (Monday) through 6 (Sunday).

use vstd::prelude::*;

verus! {

/// The display form that `arabic_reshaper::arabic_reshape` gives a piece of
/// Arabic text; it depends on the characters alone.
pub uninterp spec fn reshaped(s: Seq<char>) -> Seq<char>;

/// Whether the text holds no zero-width joiner (U+200D).
pub open spec fn zwj_free(s: Seq<char>) -> bool {
    forall|i: int| 0 <= i < s.len() ==> s[i] != '\u{200D}'
}

/// Relies on `arabic_reshaper::arabic_reshape`: it rewrites the text into
/// its presentation forms, and its result is a function of the text alone.
///
/// Joiner-free input is required because the reshaper drops zero-width
/// joiners from its shaped output but keeps them in the text its ligature
/// pass searches, so a joiner next to a ligature desynchronizes the two
/// indexings and the call panics.  The names this crate reshapes are fixed
/// joiner-free literals.
#[verifier::external_body]
fn reshape(s: &str) -> (r: String)
    requires
        zwj_free(s@),
    ensures
        r@ == reshaped(s@),
{
    arabic_reshaper::arabic_reshape(s)
}

/// Arabic name of Hijri month `m`, in its plain (unshaped) spelling.
pub open spec fn hijri_month_name(m: int) -> Seq<char> {
    if m == 1 {
        "محرم"@
    } else if m == 2 {
        "صفر"@
    } else if m == 3 {
        "ربيع الأول"@
    } else if m == 4 {
        "ربيع الثاني"@
    } else if m == 5 {
        "جمادي الأولى"@
    } else if m == 6 {
        "جمادي الآخرة"@
    } else if m == 7 {
        "رجب"@
    } else if m == 8 {
        "شعبان"@
    } else if m == 9 {
        "رمضان"@
    } else if m == 10 {
        "شوال"@
    } else if m == 11 {
        "ذو القعدة"@
    } else {
        "ذو الحجة"@
    }
}

/// English name of weekday `w` (0 is Monday, 6 is Sunday).
pub open spec fn weekday_name_en(w: int) -> Seq<char> {
    if w == 0 {
        "Monday"@
    } else if w == 1 {
        "Tuesday"@
    } else if w == 2 {
        "Wednesday"@
    } else if w == 3 {
        "Thursday"@
    } else if w == 4 {
        "Friday"@
    } else if w == 5 {
        "Saturday"@
    } else {
        "Sunday"@
    }
}

/// Arabic name of weekday `w` (0 is Monday, 6 is Sunday), in its plain
/// (unshaped) spelling.
pub open spec fn weekday_name_ar(w: int) -> Seq<char> {
    if w == 0 {
        "الاثنين"@
    } else if w == 1 {
        "الثلاثاء"@
    } else if w == 2 {
        "الاربعاء"@
    } else if w == 3 {
        "الخميس"@
    } else if w == 4 {
        "الجمعة"@
    } else if w == 5 {
        "السبت"@
    } else {
        "الاحد"@
    }
}

/// English name of Gregorian month `m`.
pub open spec fn g_month_name_en(m: int) -> Seq<char> {
    if m == 1 {
        "January"@
    } else if m == 2 {
        "February"@
    } else if m == 3 {
        "March"@
    } else if m == 4 {
        "April"@
    } else if m == 5 {
        "May"@
    } else if m == 6 {
        "June"@
    } else if m == 7 {
        "July"@
    } else if m == 8 {
        "August"@
    } else if m == 9 {
        "September"@
    } else if m == 10 {
        "October"@
    } else if m == 11 {
        "November"@
    } else {
        "December"@
    }
}

/// Reshaped Arabic name of Hijri month `m`.
pub fn hijri_month_name_x(m: usize) -> (s: String)
    requires
        1 <= m <= 12,
    ensures
        s@ == reshaped(hijri_month_name(m as int)),
{
    let plain: &str = match m {
        1 => "محرم",
        2 => "صفر",
        3 => "ربيع الأول",
        4 => "ربيع الثاني",
        5 => "جمادي الأولى",
        6 => "جمادي الآخرة",
        7 => "رجب",
        8 => "شعبان",
        9 => "رمضان",
        10 => "شوال",
        11 => "ذو القعدة",
        _ => "ذو الحجة",
    };
    proof {
        reveal_strlit("محرم");
        reveal_strlit("صفر");
        reveal_strlit("ربيع الأول");
        reveal_strlit("ربيع الثاني");
        reveal_strlit("جمادي الأولى");
        reveal_strlit("جمادي الآخرة");
        reveal_strlit("رجب");
        reveal_strlit("شعبان");
        reveal_strlit("رمضان");
        reveal_strlit("شوال");
        reveal_strlit("ذو القعدة");
        reveal_strlit("ذو الحجة");
        assert(zwj_free(plain@));
    }
    reshape(plain)
}

/// English name of weekday `w` (0 is Monday, 6 is Sunday).
pub fn weekday_name_en_x(w: usize) -> (s: String)
    requires
        w < 7,
    ensures
        s@ == weekday_name_en(w as int),
{
    let plain: &str = match w {
        0 => "Monday",
        1 => "Tuesday",
        2 => "Wednesday",
        3 => "Thursday",
        4 => "Friday",
        5 => "Saturday",
        _ => "Sunday",
    };
    plain.to_owned()
}

/// Reshaped Arabic name of weekday `w` (0 is Monday, 6 is Sunday).
pub fn weekday_name_ar_x(w: usize) -> (s: String)
    requires
        w < 7,
    ensures
        s@ == reshaped(weekday_name_ar(w as int)),
{
    let plain: &str = match w {
        0 => "الاثنين",
        1 => "الثلاثاء",
        2 => "الاربعاء",
        3 => "الخميس",
        4 => "الجمعة",
        5 => "السبت",
        _ => "الاحد",
    };
    proof {
        reveal_strlit("الاثنين");
        reveal_strlit("الثلاثاء");
        reveal_strlit("الاربعاء");
        reveal_strlit("الخميس");
        reveal_strlit("الجمعة");
        reveal_strlit("السبت");
        reveal_strlit("الاحد");
        assert(zwj_free(plain@));
    }
    reshape(plain)
}

/// English name of Gregorian month `m`.
pub fn g_month_name_en_x(m: usize) -> (s: String)
    requires
        1 <= m <= 12,
    ensures
        s@ == g_month_name_en(m as int),
{
    let plain: &str = match m {
        1 => "January",
        2 => "February",
        3 => "March",
        4 => "April",
        5 => "May",
        6 => "June",
        7 => "July",
        8 => "August",
        9 => "September",
        10 => "October",
        11 => "November",
        _ => "December",
    };
    plain.to_owned()
}

} // verus!

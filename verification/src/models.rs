use vstd::prelude::*;

verus! {

/// One chart's full record, as the remote catalogue serves it.
#[derive(Debug, PartialEq)]
pub struct FullChart {
    pub id: i32,
    pub title: String,
    pub subtitle: String,
    pub artist: String,
    pub charter: String,
    pub uploader: i32,
    pub cover: String,
    pub paths: ChartPaths,
    pub file_reference: String,
}

/// The download locations a chart record points at.
#[derive(Debug, PartialEq)]
pub struct ChartPaths {
    pub ogg: String,
    pub cover: String,
    pub zip: String,
}

/// One chart's listing record.
#[derive(Debug, PartialEq)]
pub struct PartialChart {
    pub id: i32,
    pub title: String,
    pub subtitle: Option<String>,
    pub artist: String,
    pub charter: String,
    pub cover: String,
}

/// One uploader's record.
#[derive(Debug, PartialEq)]
pub struct User {
    pub id: i32,
    pub username: String,
    pub avatar: String,
}

/// The body of a chart search request.
#[derive(Debug, PartialEq)]
pub struct SearchChartBody {
    pub search_query: String,
    pub diff_easy: bool,
    pub diff_normal: bool,
    pub diff_hard: bool,
    pub diff_expert: bool,
    pub diff_xd: bool,
    pub diff_rating_from: i32,
    pub diff_rating_to: i32,
    pub show_explicit: bool,
}

impl Default for SearchChartBody {
    /// The search defaults: an empty query, every difficulty enabled, the
    /// full rating range, explicit charts hidden.
    fn default() -> (b: Self)
        ensures
            b.search_query@ == Seq::<char>::empty(),
            b.diff_easy && b.diff_normal && b.diff_hard && b.diff_expert && b.diff_xd,
            b.diff_rating_from == 0,
            b.diff_rating_to == 100,
            !b.show_explicit,
    {
        SearchChartBody {
            search_query: String::new(),
            diff_easy: true,
            diff_normal: true,
            diff_hard: true,
            diff_expert: true,
            diff_xd: true,
            diff_rating_from: 0,
            diff_rating_to: 100,
            show_explicit: false,
        }
    }
}

/// The decimal digit character of a value below ten.
pub open spec fn digit_char(d: int) -> char {
    if d == 0 {
        '0'
    } else if d == 1 {
        '1'
    } else if d == 2 {
        '2'
    } else if d == 3 {
        '3'
    } else if d == 4 {
        '4'
    } else if d == 5 {
        '5'
    } else if d == 6 {
        '6'
    } else if d == 7 {
        '7'
    } else if d == 8 {
        '8'
    } else {
        '9'
    }
}

/// The decimal numeral of a nonnegative number, most significant digit
/// first, without leading zeros (a lone zero for zero).
pub open spec fn spec_decimal_nat(n: nat) -> Seq<char>
    decreases n,
{
    if n < 10 {
        seq![digit_char(n as int)]
    } else {
        spec_decimal_nat(n / 10).push(digit_char((n % 10) as int))
    }
}

/// The decimal rendering of a signed number: a minus sign before the
/// numeral of its magnitude.
pub open spec fn spec_decimal_int(n: int) -> Seq<char> {
    if n < 0 {
        seq!['-'] + spec_decimal_nat((-n) as nat)
    } else {
        spec_decimal_nat(n as nat)
    }
}

fn digit_string(d: u64) -> (s: String)
    requires
        d < 10,
    ensures
        s@ == seq![digit_char(d as int)],
{
    proof {
        reveal_strlit("0");
        reveal_strlit("1");
        reveal_strlit("2");
        reveal_strlit("3");
        reveal_strlit("4");
        reveal_strlit("5");
        reveal_strlit("6");
        reveal_strlit("7");
        reveal_strlit("8");
        reveal_strlit("9");
    }
    let ds = if d == 0 {
        "0"
    } else if d == 1 {
        "1"
    } else if d == 2 {
        "2"
    } else if d == 3 {
        "3"
    } else if d == 4 {
        "4"
    } else if d == 5 {
        "5"
    } else if d == 6 {
        "6"
    } else if d == 7 {
        "7"
    } else if d == 8 {
        "8"
    } else {
        "9"
    };
    proof {
        assert(ds@ =~= seq![digit_char(d as int)]);
    }
    String::from_str(ds)
}

fn u64_decimal(n: u64) -> (s: String)
    ensures
        s@ == spec_decimal_nat(n as nat),
    decreases n,
{
    if n < 10 {
        digit_string(n)
    } else {
        assert(n / 10 < n);
        let mut s = u64_decimal(n / 10);
        let d = digit_string(n % 10);
        s.append(d.as_str());
        proof {
            assert(s@ =~= spec_decimal_nat(n as nat));
        }
        s
    }
}

/// Renders a number in decimal, exactly as the remote endpoints expect it.
pub fn i32_decimal(n: i32) -> (s: String)
    ensures
        s@ == spec_decimal_int(n as int),
{
    if n < 0 {
        let mag = -(n as i64);
        let mut s = String::from_str("-");
        proof {
            reveal_strlit("-");
        }
        s.append(u64_decimal(mag as u64).as_str());
        proof {
            assert(s@ =~= spec_decimal_int(n as int));
        }
        s
    } else {
        u64_decimal(n as u64)
    }
}

/// The endpoint that serves one chart's full record.
pub fn chart_endpoint(id: i32) -> (s: String)
    ensures
        s@ == "https://spinsha.re/api/song/"@ + spec_decimal_int(id as int),
{
    let mut s = String::from_str("https://spinsha.re/api/song/");
    s.append(i32_decimal(id).as_str());
    s
}

/// The endpoint that serves one page of the newest charts.
pub fn new_charts_endpoint(page: i32) -> (s: String)
    ensures
        s@ == "https://spinsha.re/api/songs/new/"@ + spec_decimal_int(page as int),
{
    let mut s = String::from_str("https://spinsha.re/api/songs/new/");
    s.append(i32_decimal(page).as_str());
    s
}

/// The endpoint that serves one page of the last updated charts.
pub fn updated_charts_endpoint(page: i32) -> (s: String)
    ensures
        s@ == "https://spinsha.re/api/songs/updated/"@ + spec_decimal_int(page as int),
{
    let mut s = String::from_str("https://spinsha.re/api/songs/updated/");
    s.append(i32_decimal(page).as_str());
    s
}

/// The endpoint that serves one page of the charts hot this week.
pub fn weekly_hot_charts_endpoint(page: i32) -> (s: String)
    ensures
        s@ == "https://spinsha.re/api/songs/hotThisWeek/"@ + spec_decimal_int(page as int),
{
    let mut s = String::from_str("https://spinsha.re/api/songs/hotThisWeek/");
    s.append(i32_decimal(page).as_str());
    s
}

/// The endpoint that serves one page of the charts hot this month.
pub fn monthly_hot_charts_endpoint(page: i32) -> (s: String)
    ensures
        s@ == "https://spinsha.re/api/songs/hotThisMonth/"@ + spec_decimal_int(page as int),
{
    let mut s = String::from_str("https://spinsha.re/api/songs/hotThisMonth/");
    s.append(i32_decimal(page).as_str());
    s
}

/// The endpoint that serves one uploader's record.
pub fn user_endpoint(id: i32) -> (s: String)
    ensures
        s@ == "https://spinsha.re/api/user/"@ + spec_decimal_int(id as int),
{
    let mut s = String::from_str("https://spinsha.re/api/user/");
    s.append(i32_decimal(id).as_str());
    s
}

/// The endpoint that serves the charts one uploader published.
pub fn user_charts_endpoint(id: i32) -> (s: String)
    ensures
        s@ == "https://spinsha.re/api/user/"@ + spec_decimal_int(id as int) + "/charts"@,
{
    let mut s = String::from_str("https://spinsha.re/api/user/");
    s.append(i32_decimal(id).as_str());
    s.append("/charts");
    s
}

/// The endpoint that answers chart searches.
pub fn search_endpoint() -> (s: String)
    ensures
        s@ == "https://spinsha.re/api/searchCharts"@,
{
    String::from_str("https://spinsha.re/api/searchCharts")
}

} // verus!

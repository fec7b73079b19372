//! Where each store lives on disk, as paths relative to the working
//! directory.

use vstd::prelude::*;

use vstd::string::StringExecFns;

verus! {

/// The directory of all stores.
pub const DATABASE_DIR: &'static str = "database";

/// The subdirectory of the per-streamer stores.
pub const LIVERS_DIR: &'static str = "database/livers/";

/// The global stream catalog store.
pub const ACFUN_LIVE_DATABASE_NAME: &'static str = "acfunlive.db";

/// The global gift catalog store.
pub const GIFT_DATABASE_NAME: &'static str = "gift.db";

/// The decimal numeral of a non-negative number.
pub open spec fn spec_decimal(n: int) -> Seq<char>
    decreases n,
{
    if n < 0 {
        Seq::<char>::empty()
    } else if n < 10 {
        seq![spec_digit_char(n)]
    } else {
        spec_decimal(n / 10).push(spec_digit_char(n % 10))
    }
}

/// The character of one digit.
pub open spec fn spec_digit_char(d: int) -> char {
    if d == 0 {
        '0'
    } else if d == 1 {
        '1'
    } else if d == 2 {
        '2'
    } else if d == 3 {
        '3'
    } else if d == 4 {
        '4'
    } else if d == 5 {
        '5'
    } else if d == 6 {
        '6'
    } else if d == 7 {
        '7'
    } else if d == 8 {
        '8'
    } else {
        '9'
    }
}

/// The text of one digit.
fn digit_str(d: u64) -> (r: &'static str)
    requires
        d < 10,
    ensures
        r@ == seq![spec_digit_char(d as int)],
{
    proof {
        reveal_strlit("0");
        reveal_strlit("1");
        reveal_strlit("2");
        reveal_strlit("3");
        reveal_strlit("4");
        reveal_strlit("5");
        reveal_strlit("6");
        reveal_strlit("7");
        reveal_strlit("8");
        reveal_strlit("9");
    }
    if d == 0 {
        "0"
    } else if d == 1 {
        "1"
    } else if d == 2 {
        "2"
    } else if d == 3 {
        "3"
    } else if d == 4 {
        "4"
    } else if d == 5 {
        "5"
    } else if d == 6 {
        "6"
    } else if d == 7 {
        "7"
    } else if d == 8 {
        "8"
    } else {
        "9"
    }
}

/// Write a non-negative number in decimal.
pub fn decimal_string(n: u64) -> (r: String)
    ensures
        r@ == spec_decimal(n as int),
    decreases n,
{
    if n < 10 {
        String::from_str(digit_str(n))
    } else {
        let head = decimal_string(n / 10);
        head.concat(digit_str(n % 10))
    }
}

/// The file name of one streamer's store: the uid followed by the store
/// suffix.
pub fn liver_db_file(liver_uid: i64) -> (r: String)
    requires
        liver_uid > 0,
    ensures
        r@ == spec_decimal(liver_uid as int) + ".db"@,
{
    let digits = decimal_string(liver_uid as u64);
    digits.concat(".db")
}

/// The path of one streamer's store under the stores directory.
pub fn liver_db_path(liver_uid: i64) -> (r: String)
    requires
        liver_uid > 0,
    ensures
        r@ == LIVERS_DIR@ + spec_decimal(liver_uid as int) + ".db"@,
{
    let file = liver_db_file(liver_uid);
    let mut path = String::from_str(LIVERS_DIR);
    path.append(file.as_str());
    proof {
        assert(path@ == LIVERS_DIR@ + (spec_decimal(liver_uid as int) + ".db"@));
        assert(LIVERS_DIR@ + (spec_decimal(liver_uid as int) + ".db"@) =~= LIVERS_DIR@
            + spec_decimal(liver_uid as int) + ".db"@);
    }
    path
}

} // verus!

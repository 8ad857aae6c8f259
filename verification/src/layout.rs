//! Names that are derived from an epoch number or a port: the per-epoch
//! storage directory and the address of the primary's administrative endpoint.

use crate::config::Epoch;
use vstd::prelude::*;
use vstd::string::*;

verus! {

/// The character that stands for the decimal digit `d`.
pub open spec fn digit_char(d: nat) -> char {
    if d == 0 {
        '0'
    } else if d == 1 {
        '1'
    } else if d == 2 {
        '2'
    } else if d == 3 {
        '3'
    } else if d == 4 {
        '4'
    } else if d == 5 {
        '5'
    } else if d == 6 {
        '6'
    } else if d == 7 {
        '7'
    } else if d == 8 {
        '8'
    } else {
        '9'
    }
}

/// The decimal numeral of `n`, most significant digit first, without leading
/// zeros (the numeral of zero is `"0"`).
pub open spec fn decimal(n: nat) -> Seq<char>
    decreases n,
{
    if n < 10 {
        seq![digit_char(n)]
    } else {
        decimal(n / 10) + seq![digit_char(n % 10)]
    }
}

fn digit_str(d: u64) -> (s: &'static str)
    requires
        d < 10,
    ensures
        s@ == seq![digit_char(d as nat)],
{
    proof {
        reveal_strlit("0");
        reveal_strlit("1");
        reveal_strlit("2");
        reveal_strlit("3");
        reveal_strlit("4");
        reveal_strlit("5");
        reveal_strlit("6");
        reveal_strlit("7");
        reveal_strlit("8");
        reveal_strlit("9");
    }
    let s = if d == 0 {
        "0"
    } else if d == 1 {
        "1"
    } else if d == 2 {
        "2"
    } else if d == 3 {
        "3"
    } else if d == 4 {
        "4"
    } else if d == 5 {
        "5"
    } else if d == 6 {
        "6"
    } else if d == 7 {
        "7"
    } else if d == 8 {
        "8"
    } else {
        "9"
    };
    assert(s@ =~= seq![digit_char(d as nat)]);
    s
}

/// Writes `n` in decimal.
pub fn decimal_string(n: u64) -> (s: String)
    ensures
        s@ == decimal(n as nat),
    decreases n,
{
    if n < 10 {
        String::from_str(digit_str(n))
    } else {
        let mut s = decimal_string(n / 10);
        s.append(digit_str(n % 10));
        s
    }
}

/// Name of the directory that holds the storage of `epoch`: the word `epoch`
/// followed by the epoch number in decimal.
pub open spec fn epoch_directory_spec(epoch: Epoch) -> Seq<char> {
    "epoch"@ + decimal(epoch as nat)
}

/// Location of the storage of `epoch` under `base`: the epoch's directory
/// pushed onto the base path. A separator is put between the two unless the
/// base is empty or already ends with one.
pub open spec fn storage_path_spec(base: Seq<char>, epoch: Epoch) -> Seq<char> {
    if base.len() == 0 || base.last() == '/' {
        base + epoch_directory_spec(epoch)
    } else {
        base + "/"@ + epoch_directory_spec(epoch)
    }
}

/// Address to which the shutdown notification for the primary listening on
/// the local administrative `port` is posted.
pub open spec fn shutdown_url_spec(port: u16) -> Seq<char> {
    "http://127.0.0.1:"@ + decimal(port as nat) + "/reconfigure"@
}

/// The digit that the character `c` stands for.
pub open spec fn digit_value(c: char) -> nat {
    if c == '1' {
        1
    } else if c == '2' {
        2
    } else if c == '3' {
        3
    } else if c == '4' {
        4
    } else if c == '5' {
        5
    } else if c == '6' {
        6
    } else if c == '7' {
        7
    } else if c == '8' {
        8
    } else if c == '9' {
        9
    } else {
        0
    }
}

/// The number that the decimal numeral `digits` stands for.
pub open spec fn decimal_value(digits: Seq<char>) -> nat
    decreases digits.len(),
{
    if digits.len() == 0 {
        0
    } else {
        decimal_value(digits.drop_last()) * 10 + digit_value(digits.last())
    }
}

/// The numeral of a number reads back as that number, so different numbers
/// have different numerals.
pub proof fn law_decimal_reads_back(n: nat)
    ensures
        decimal_value(decimal(n)) == n,
        decimal(n).len() >= 1,
    decreases n,
{
    if n < 10 {
        let digits = seq![digit_char(n)];
        assert(digits.drop_last() =~= Seq::<char>::empty());
        assert(decimal_value(digits.drop_last()) == 0);
    } else {
        law_decimal_reads_back(n / 10);
        let digits = decimal(n / 10) + seq![digit_char(n % 10)];
        assert(digits.drop_last() =~= decimal(n / 10));
        assert(digits.last() == digit_char(n % 10));
    }
}

/// Each epoch has a storage location of its own: under one base, the storage
/// paths of two epochs are the same only if the epochs are.
pub proof fn law_storage_paths_differ(base: Seq<char>, a: Epoch, b: Epoch)
    ensures
        epoch_directory_spec(a) == epoch_directory_spec(b) ==> a == b,
        storage_path_spec(base, a) == storage_path_spec(base, b) ==> a == b,
{
    law_decimal_reads_back(a as nat);
    law_decimal_reads_back(b as nat);
    let word = "epoch"@;
    if epoch_directory_spec(a) == epoch_directory_spec(b) {
        assert((word + decimal(a as nat)).skip(word.len() as int) =~= decimal(a as nat));
        assert((word + decimal(b as nat)).skip(word.len() as int) =~= decimal(b as nat));
    }
    if storage_path_spec(base, a) == storage_path_spec(base, b) {
        let front = if base.len() == 0 || base.last() == '/' {
            base
        } else {
            base + "/"@
        };
        assert((front + epoch_directory_spec(a)).skip(front.len() as int)
            =~= epoch_directory_spec(a));
        assert((front + epoch_directory_spec(b)).skip(front.len() as int)
            =~= epoch_directory_spec(b));
    }
}

/// Computes the name of the storage directory of `epoch`.
pub fn epoch_directory(epoch: Epoch) -> (name: String)
    ensures
        name@ == epoch_directory_spec(epoch),
{
    let mut name = String::from_str("epoch");
    let number = decimal_string(epoch);
    name.append(number.as_str());
    name
}

/// Computes where the storage of `epoch` lives under `base`.
pub fn storage_path(base: &str, epoch: Epoch) -> (path: String)
    ensures
        path@ == storage_path_spec(base@, epoch),
{
    let mut path = String::from_str(base);
    let len = base.unicode_len();
    if len > 0 && base.get_char(len - 1) != '/' {
        path.append("/");
    }
    let directory = epoch_directory(epoch);
    path.append(directory.as_str());
    path
}

/// Computes the address of the administrative endpoint of the primary that
/// listens on `port`.
pub fn shutdown_url(port: u16) -> (url: String)
    ensures
        url@ == shutdown_url_spec(port),
{
    let mut url = String::from_str("http://127.0.0.1:");
    let number = decimal_string(port as u64);
    url.append(number.as_str());
    url.append("/reconfigure");
    url
}

} // verus!

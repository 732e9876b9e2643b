//! The two-letter country codes that a jurisdiction may be.

use vstd::prelude::*;

verus! {

/// Whether the two characters are an assigned country code (ISO 3166-1 alpha-2).
pub open spec fn is_country_code(first: char, second: char) -> bool {
    match first {
        'A' => match second {
            'D' | 'E' | 'F' | 'G' | 'I' | 'L' | 'M' | 'O' | 'Q' | 'R' | 'S' | 'T'
            | 'U' | 'W' | 'X' | 'Z' => true,
            _ => false,
        },
        'B' => match second {
            'A' | 'B' | 'D' | 'E' | 'F' | 'G' | 'H' | 'I' | 'J' | 'L' | 'M' | 'N'
            | 'O' | 'Q' | 'R' | 'S' | 'T' | 'V' | 'W' | 'Y' | 'Z' => true,
            _ => false,
        },
        'C' => match second {
            'A' | 'C' | 'D' | 'F' | 'G' | 'H' | 'I' | 'K' | 'L' | 'M' | 'N' | 'O'
            | 'R' | 'U' | 'V' | 'W' | 'X' | 'Y' | 'Z' => true,
            _ => false,
        },
        'D' => match second {
            'E' | 'J' | 'K' | 'M' | 'O' | 'Z' => true,
            _ => false,
        },
        'E' => match second {
            'C' | 'E' | 'G' | 'H' | 'R' | 'S' | 'T' => true,
            _ => false,
        },
        'F' => match second {
            'I' | 'J' | 'K' | 'M' | 'O' | 'R' => true,
            _ => false,
        },
        'G' => match second {
            'A' | 'B' | 'D' | 'E' | 'F' | 'G' | 'H' | 'I' | 'L' | 'M' | 'N' | 'P'
            | 'Q' | 'R' | 'S' | 'T' | 'U' | 'W' | 'Y' => true,
            _ => false,
        },
        'H' => match second {
            'K' | 'M' | 'N' | 'R' | 'T' | 'U' => true,
            _ => false,
        },
        'I' => match second {
            'D' | 'E' | 'L' | 'M' | 'N' | 'O' | 'Q' | 'R' | 'S' | 'T' => true,
            _ => false,
        },
        'J' => match second {
            'E' | 'M' | 'O' | 'P' => true,
            _ => false,
        },
        'K' => match second {
            'E' | 'G' | 'H' | 'I' | 'M' | 'N' | 'P' | 'R' | 'W' | 'Y' | 'Z' => true,
            _ => false,
        },
        'L' => match second {
            'A' | 'B' | 'C' | 'I' | 'K' | 'R' | 'S' | 'T' | 'U' | 'V' | 'Y' => true,
            _ => false,
        },
        'M' => match second {
            'A' | 'C' | 'D' | 'E' | 'F' | 'G' | 'H' | 'K' | 'L' | 'M' | 'N' | 'O'
            | 'P' | 'Q' | 'R' | 'S' | 'T' | 'U' | 'V' | 'W' | 'X' | 'Y' | 'Z' => true,
            _ => false,
        },
        'N' => match second {
            'A' | 'C' | 'E' | 'F' | 'G' | 'I' | 'L' | 'O' | 'P' | 'R' | 'U' | 'Z' => true,
            _ => false,
        },
        'O' => match second {
            'M' => true,
            _ => false,
        },
        'P' => match second {
            'A' | 'E' | 'F' | 'G' | 'H' | 'K' | 'L' | 'M' | 'N' | 'R' | 'S' | 'T'
            | 'W' | 'Y' => true,
            _ => false,
        },
        'Q' => match second {
            'A' => true,
            _ => false,
        },
        'R' => match second {
            'E' | 'O' | 'S' | 'U' | 'W' => true,
            _ => false,
        },
        'S' => match second {
            'A' | 'B' | 'C' | 'D' | 'E' | 'G' | 'H' | 'I' | 'J' | 'K' | 'L' | 'M'
            | 'N' | 'O' | 'R' | 'S' | 'T' | 'V' | 'X' | 'Y' | 'Z' => true,
            _ => false,
        },
        'T' => match second {
            'C' | 'D' | 'F' | 'G' | 'H' | 'J' | 'K' | 'L' | 'M' | 'N' | 'O' | 'R'
            | 'T' | 'V' | 'W' | 'Z' => true,
            _ => false,
        },
        'U' => match second {
            'A' | 'G' | 'M' | 'S' | 'Y' | 'Z' => true,
            _ => false,
        },
        'V' => match second {
            'A' | 'C' | 'E' | 'G' | 'I' | 'N' | 'U' => true,
            _ => false,
        },
        'W' => match second {
            'F' | 'S' => true,
            _ => false,
        },
        'Y' => match second {
            'E' | 'T' => true,
            _ => false,
        },
        'Z' => match second {
            'A' | 'M' | 'W' => true,
            _ => false,
        },
        _ => false,
    }
}

/// Whether the two characters are an assigned country code (ISO 3166-1 alpha-2).
pub fn check_country_code(first: char, second: char) -> (r: bool)
    ensures
        r == is_country_code(first, second),
{
    match first {
        'A' => match second {
            'D' | 'E' | 'F' | 'G' | 'I' | 'L' | 'M' | 'O' | 'Q' | 'R' | 'S' | 'T'
            | 'U' | 'W' | 'X' | 'Z' => true,
            _ => false,
        },
        'B' => match second {
            'A' | 'B' | 'D' | 'E' | 'F' | 'G' | 'H' | 'I' | 'J' | 'L' | 'M' | 'N'
            | 'O' | 'Q' | 'R' | 'S' | 'T' | 'V' | 'W' | 'Y' | 'Z' => true,
            _ => false,
        },
        'C' => match second {
            'A' | 'C' | 'D' | 'F' | 'G' | 'H' | 'I' | 'K' | 'L' | 'M' | 'N' | 'O'
            | 'R' | 'U' | 'V' | 'W' | 'X' | 'Y' | 'Z' => true,
            _ => false,
        },
        'D' => match second {
            'E' | 'J' | 'K' | 'M' | 'O' | 'Z' => true,
            _ => false,
        },
        'E' => match second {
            'C' | 'E' | 'G' | 'H' | 'R' | 'S' | 'T' => true,
            _ => false,
        },
        'F' => match second {
            'I' | 'J' | 'K' | 'M' | 'O' | 'R' => true,
            _ => false,
        },
        'G' => match second {
            'A' | 'B' | 'D' | 'E' | 'F' | 'G' | 'H' | 'I' | 'L' | 'M' | 'N' | 'P'
            | 'Q' | 'R' | 'S' | 'T' | 'U' | 'W' | 'Y' => true,
            _ => false,
        },
        'H' => match second {
            'K' | 'M' | 'N' | 'R' | 'T' | 'U' => true,
            _ => false,
        },
        'I' => match second {
            'D' | 'E' | 'L' | 'M' | 'N' | 'O' | 'Q' | 'R' | 'S' | 'T' => true,
            _ => false,
        },
        'J' => match second {
            'E' | 'M' | 'O' | 'P' => true,
            _ => false,
        },
        'K' => match second {
            'E' | 'G' | 'H' | 'I' | 'M' | 'N' | 'P' | 'R' | 'W' | 'Y' | 'Z' => true,
            _ => false,
        },
        'L' => match second {
            'A' | 'B' | 'C' | 'I' | 'K' | 'R' | 'S' | 'T' | 'U' | 'V' | 'Y' => true,
            _ => false,
        },
        'M' => match second {
            'A' | 'C' | 'D' | 'E' | 'F' | 'G' | 'H' | 'K' | 'L' | 'M' | 'N' | 'O'
            | 'P' | 'Q' | 'R' | 'S' | 'T' | 'U' | 'V' | 'W' | 'X' | 'Y' | 'Z' => true,
            _ => false,
        },
        'N' => match second {
            'A' | 'C' | 'E' | 'F' | 'G' | 'I' | 'L' | 'O' | 'P' | 'R' | 'U' | 'Z' => true,
            _ => false,
        },
        'O' => match second {
            'M' => true,
            _ => false,
        },
        'P' => match second {
            'A' | 'E' | 'F' | 'G' | 'H' | 'K' | 'L' | 'M' | 'N' | 'R' | 'S' | 'T'
            | 'W' | 'Y' => true,
            _ => false,
        },
        'Q' => match second {
            'A' => true,
            _ => false,
        },
        'R' => match second {
            'E' | 'O' | 'S' | 'U' | 'W' => true,
            _ => false,
        },
        'S' => match second {
            'A' | 'B' | 'C' | 'D' | 'E' | 'G' | 'H' | 'I' | 'J' | 'K' | 'L' | 'M'
            | 'N' | 'O' | 'R' | 'S' | 'T' | 'V' | 'X' | 'Y' | 'Z' => true,
            _ => false,
        },
        'T' => match second {
            'C' | 'D' | 'F' | 'G' | 'H' | 'J' | 'K' | 'L' | 'M' | 'N' | 'O' | 'R'
            | 'T' | 'V' | 'W' | 'Z' => true,
            _ => false,
        },
        'U' => match second {
            'A' | 'G' | 'M' | 'S' | 'Y' | 'Z' => true,
            _ => false,
        },
        'V' => match second {
            'A' | 'C' | 'E' | 'G' | 'I' | 'N' | 'U' => true,
            _ => false,
        },
        'W' => match second {
            'F' | 'S' => true,
            _ => false,
        },
        'Y' => match second {
            'E' | 'T' => true,
            _ => false,
        },
        'Z' => match second {
            'A' | 'M' | 'W' => true,
            _ => false,
        },
        _ => false,
    }
}

} // verus!

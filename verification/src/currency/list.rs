//! The known currencies, one function each.
//!
//! Each function gives the code that its name spells.

#![allow(non_snake_case)]

use vstd::prelude::*;

use super::{code_of, lemma_code_of, CurrencyCode};
use crate::text::ascii_chars;
use crate::url::{all_wf, lemma_letters_concat, lemma_letters_push, letters};

verus! {

/// How many currencies this module knows.
pub const LEN: usize = 185;

/// The `ADA` currency code.
pub fn ADA() -> (code: CurrencyCode)
    ensures
        code == code_of(seq![0x41u8, 0x44u8, 0x41u8]),
        code@ == seq![0x41u8, 0x44u8, 0x41u8],
        code.text() == "ADA"@,
{
    proof {
        reveal_strlit("ADA");
        assert(ascii_chars(seq![0x41u8, 0x44u8, 0x41u8]) =~= "ADA"@);
    }
    CurrencyCode::from_array([0x41, 0x44, 0x41])
}

/// The `AED` currency code.
pub fn AED() -> (code: CurrencyCode)
    ensures
        code == code_of(seq![0x41u8, 0x45u8, 0x44u8]),
        code@ == seq![0x41u8, 0x45u8, 0x44u8],
        code.text() == "AED"@,
{
    proof {
        reveal_strlit("AED");
        assert(ascii_chars(seq![0x41u8, 0x45u8, 0x44u8]) =~= "AED"@);
    }
    CurrencyCode::from_array([0x41, 0x45, 0x44])
}

/// The `AFN` currency code.
pub fn AFN() -> (code: CurrencyCode)
    ensures
        code == code_of(seq![0x41u8, 0x46u8, 0x4eu8]),
        code@ == seq![0x41u8, 0x46u8, 0x4eu8],
        code.text() == "AFN"@,
{
    proof {
        reveal_strlit("AFN");
        assert(ascii_chars(seq![0x41u8, 0x46u8, 0x4eu8]) =~= "AFN"@);
    }
    CurrencyCode::from_array([0x41, 0x46, 0x4e])
}

/// The `ALL` currency code.
pub fn ALL() -> (code: CurrencyCode)
    ensures
        code == code_of(seq![0x41u8, 0x4cu8, 0x4cu8]),
        code@ == seq![0x41u8, 0x4cu8, 0x4cu8],
        code.text() == "ALL"@,
{
    proof {
        reveal_strlit("ALL");
        assert(ascii_chars(seq![0x41u8, 0x4cu8, 0x4cu8]) =~= "ALL"@);
    }
    CurrencyCode::from_array([0x41, 0x4c, 0x4c])
}

/// The `AMD` currency code.
pub fn AMD() -> (code: CurrencyCode)
    ensures
        code == code_of(seq![0x41u8, 0x4du8, 0x44u8]),
        code@ == seq![0x41u8, 0x4du8, 0x44u8],
        code.text() == "AMD"@,
{
    proof {
        reveal_strlit("AMD");
        assert(ascii_chars(seq![0x41u8, 0x4du8, 0x44u8]) =~= "AMD"@);
    }
    CurrencyCode::from_array([0x41, 0x4d, 0x44])
}

/// The `ANG` currency code.
pub fn ANG() -> (code: CurrencyCode)
    ensures
        code == code_of(seq![0x41u8, 0x4eu8, 0x47u8]),
        code@ == seq![0x41u8, 0x4eu8, 0x47u8],
        code.text() == "ANG"@,
{
    proof {
        reveal_strlit("ANG");
        assert(ascii_chars(seq![0x41u8, 0x4eu8, 0x47u8]) =~= "ANG"@);
    }
    CurrencyCode::from_array([0x41, 0x4e, 0x47])
}

/// The `AOA` currency code.
pub fn AOA() -> (code: CurrencyCode)
    ensures
        code == code_of(seq![0x41u8, 0x4fu8, 0x41u8]),
        code@ == seq![0x41u8, 0x4fu8, 0x41u8],
        code.text() == "AOA"@,
{
    proof {
        reveal_strlit("AOA");
        assert(ascii_chars(seq![0x41u8, 0x4fu8, 0x41u8]) =~= "AOA"@);
    }
    CurrencyCode::from_array([0x41, 0x4f, 0x41])
}

/// The `ARB` currency code.
pub fn ARB() -> (code: CurrencyCode)
    ensures
        code == code_of(seq![0x41u8, 0x52u8, 0x42u8]),
        code@ == seq![0x41u8, 0x52u8, 0x42u8],
        code.text() == "ARB"@,
{
    proof {
        reveal_strlit("ARB");
        assert(ascii_chars(seq![0x41u8, 0x52u8, 0x42u8]) =~= "ARB"@);
    }
    CurrencyCode::from_array([0x41, 0x52, 0x42])
}

/// The `ARS` currency code.
pub fn ARS() -> (code: CurrencyCode)
    ensures
        code == code_of(seq![0x41u8, 0x52u8, 0x53u8]),
        code@ == seq![0x41u8, 0x52u8, 0x53u8],
        code.text() == "ARS"@,
{
    proof {
        reveal_strlit("ARS");
        assert(ascii_chars(seq![0x41u8, 0x52u8, 0x53u8]) =~= "ARS"@);
    }
    CurrencyCode::from_array([0x41, 0x52, 0x53])
}

/// The `AUD` currency code.
pub fn AUD() -> (code: CurrencyCode)
    ensures
        code == code_of(seq![0x41u8, 0x55u8, 0x44u8]),
        code@ == seq![0x41u8, 0x55u8, 0x44u8],
        code.text() == "AUD"@,
{
    proof {
        reveal_strlit("AUD");
        assert(ascii_chars(seq![0x41u8, 0x55u8, 0x44u8]) =~= "AUD"@);
    }
    CurrencyCode::from_array([0x41, 0x55, 0x44])
}

/// The `AVAX` currency code.
pub fn AVAX() -> (code: CurrencyCode)
    ensures
        code == code_of(seq![0x41u8, 0x56u8, 0x41u8, 0x58u8]),
        code@ == seq![0x41u8, 0x56u8, 0x41u8, 0x58u8],
        code.text() == "AVAX"@,
{
    proof {
        reveal_strlit("AVAX");
        assert(ascii_chars(seq![0x41u8, 0x56u8, 0x41u8, 0x58u8]) =~= "AVAX"@);
    }
    CurrencyCode::from_array([0x41, 0x56, 0x41, 0x58])
}

/// The `AWG` currency code.
pub fn AWG() -> (code: CurrencyCode)
    ensures
        code == code_of(seq![0x41u8, 0x57u8, 0x47u8]),
        code@ == seq![0x41u8, 0x57u8, 0x47u8],
        code.text() == "AWG"@,
{
    proof {
        reveal_strlit("AWG");
        assert(ascii_chars(seq![0x41u8, 0x57u8, 0x47u8]) =~= "AWG"@);
    }
    CurrencyCode::from_array([0x41, 0x57, 0x47])
}

/// The `AZN` currency code.
pub fn AZN() -> (code: CurrencyCode)
    ensures
        code == code_of(seq![0x41u8, 0x5au8, 0x4eu8]),
        code@ == seq![0x41u8, 0x5au8, 0x4eu8],
        code.text() == "AZN"@,
{
    proof {
        reveal_strlit("AZN");
        assert(ascii_chars(seq![0x41u8, 0x5au8, 0x4eu8]) =~= "AZN"@);
    }
    CurrencyCode::from_array([0x41, 0x5a, 0x4e])
}

/// The `BAM` currency code.
pub fn BAM() -> (code: CurrencyCode)
    ensures
        code == code_of(seq![0x42u8, 0x41u8, 0x4du8]),
        code@ == seq![0x42u8, 0x41u8, 0x4du8],
        code.text() == "BAM"@,
{
    proof {
        reveal_strlit("BAM");
        assert(ascii_chars(seq![0x42u8, 0x41u8, 0x4du8]) =~= "BAM"@);
    }
    CurrencyCode::from_array([0x42, 0x41, 0x4d])
}

/// The `BBD` currency code.
pub fn BBD() -> (code: CurrencyCode)
    ensures
        code == code_of(seq![0x42u8, 0x42u8, 0x44u8]),
        code@ == seq![0x42u8, 0x42u8, 0x44u8],
        code.text() == "BBD"@,
{
    proof {
        reveal_strlit("BBD");
        assert(ascii_chars(seq![0x42u8, 0x42u8, 0x44u8]) =~= "BBD"@);
    }
    CurrencyCode::from_array([0x42, 0x42, 0x44])
}

/// The `BDT` currency code.
pub fn BDT() -> (code: CurrencyCode)
    ensures
        code == code_of(seq![0x42u8, 0x44u8, 0x54u8]),
        code@ == seq![0x42u8, 0x44u8, 0x54u8],
        code.text() == "BDT"@,
{
    proof {
        reveal_strlit("BDT");
        assert(ascii_chars(seq![0x42u8, 0x44u8, 0x54u8]) =~= "BDT"@);
    }
    CurrencyCode::from_array([0x42, 0x44, 0x54])
}

/// The `BGN` currency code.
pub fn BGN() -> (code: CurrencyCode)
    ensures
        code == code_of(seq![0x42u8, 0x47u8, 0x4eu8]),
        code@ == seq![0x42u8, 0x47u8, 0x4eu8],
        code.text() == "BGN"@,
{
    proof {
        reveal_strlit("BGN");
        assert(ascii_chars(seq![0x42u8, 0x47u8, 0x4eu8]) =~= "BGN"@);
    }
    CurrencyCode::from_array([0x42, 0x47, 0x4e])
}

/// The `BHD` currency code.
pub fn BHD() -> (code: CurrencyCode)
    ensures
        code == code_of(seq![0x42u8, 0x48u8, 0x44u8]),
        code@ == seq![0x42u8, 0x48u8, 0x44u8],
        code.text() == "BHD"@,
{
    proof {
        reveal_strlit("BHD");
        assert(ascii_chars(seq![0x42u8, 0x48u8, 0x44u8]) =~= "BHD"@);
    }
    CurrencyCode::from_array([0x42, 0x48, 0x44])
}

/// The `BIF` currency code.
pub fn BIF() -> (code: CurrencyCode)
    ensures
        code == code_of(seq![0x42u8, 0x49u8, 0x46u8]),
        code@ == seq![0x42u8, 0x49u8, 0x46u8],
        code.text() == "BIF"@,
{
    proof {
        reveal_strlit("BIF");
        assert(ascii_chars(seq![0x42u8, 0x49u8, 0x46u8]) =~= "BIF"@);
    }
    CurrencyCode::from_array([0x42, 0x49, 0x46])
}

/// The `BMD` currency code.
pub fn BMD() -> (code: CurrencyCode)
    ensures
        code == code_of(seq![0x42u8, 0x4du8, 0x44u8]),
        code@ == seq![0x42u8, 0x4du8, 0x44u8],
        code.text() == "BMD"@,
{
    proof {
        reveal_strlit("BMD");
        assert(ascii_chars(seq![0x42u8, 0x4du8, 0x44u8]) =~= "BMD"@);
    }
    CurrencyCode::from_array([0x42, 0x4d, 0x44])
}

/// The `BNB` currency code.
pub fn BNB() -> (code: CurrencyCode)
    ensures
        code == code_of(seq![0x42u8, 0x4eu8, 0x42u8]),
        code@ == seq![0x42u8, 0x4eu8, 0x42u8],
        code.text() == "BNB"@,
{
    proof {
        reveal_strlit("BNB");
        assert(ascii_chars(seq![0x42u8, 0x4eu8, 0x42u8]) =~= "BNB"@);
    }
    CurrencyCode::from_array([0x42, 0x4e, 0x42])
}

/// The `BND` currency code.
pub fn BND() -> (code: CurrencyCode)
    ensures
        code == code_of(seq![0x42u8, 0x4eu8, 0x44u8]),
        code@ == seq![0x42u8, 0x4eu8, 0x44u8],
        code.text() == "BND"@,
{
    proof {
        reveal_strlit("BND");
        assert(ascii_chars(seq![0x42u8, 0x4eu8, 0x44u8]) =~= "BND"@);
    }
    CurrencyCode::from_array([0x42, 0x4e, 0x44])
}

/// The `BOB` currency code.
pub fn BOB() -> (code: CurrencyCode)
    ensures
        code == code_of(seq![0x42u8, 0x4fu8, 0x42u8]),
        code@ == seq![0x42u8, 0x4fu8, 0x42u8],
        code.text() == "BOB"@,
{
    proof {
        reveal_strlit("BOB");
        assert(ascii_chars(seq![0x42u8, 0x4fu8, 0x42u8]) =~= "BOB"@);
    }
    CurrencyCode::from_array([0x42, 0x4f, 0x42])
}

/// The `BRL` currency code.
pub fn BRL() -> (code: CurrencyCode)
    ensures
        code == code_of(seq![0x42u8, 0x52u8, 0x4cu8]),
        code@ == seq![0x42u8, 0x52u8, 0x4cu8],
        code.text() == "BRL"@,
{
    proof {
        reveal_strlit("BRL");
        assert(ascii_chars(seq![0x42u8, 0x52u8, 0x4cu8]) =~= "BRL"@);
    }
    CurrencyCode::from_array([0x42, 0x52, 0x4c])
}

/// The `BSD` currency code.
pub fn BSD() -> (code: CurrencyCode)
    ensures
        code == code_of(seq![0x42u8, 0x53u8, 0x44u8]),
        code@ == seq![0x42u8, 0x53u8, 0x44u8],
        code.text() == "BSD"@,
{
    proof {
        reveal_strlit("BSD");
        assert(ascii_chars(seq![0x42u8, 0x53u8, 0x44u8]) =~= "BSD"@);
    }
    CurrencyCode::from_array([0x42, 0x53, 0x44])
}

/// The `BTC` currency code.
pub fn BTC() -> (code: CurrencyCode)
    ensures
        code == code_of(seq![0x42u8, 0x54u8, 0x43u8]),
        code@ == seq![0x42u8, 0x54u8, 0x43u8],
        code.text() == "BTC"@,
{
    proof {
        reveal_strlit("BTC");
        assert(ascii_chars(seq![0x42u8, 0x54u8, 0x43u8]) =~= "BTC"@);
    }
    CurrencyCode::from_array([0x42, 0x54, 0x43])
}

/// The `BTN` currency code.
pub fn BTN() -> (code: CurrencyCode)
    ensures
        code == code_of(seq![0x42u8, 0x54u8, 0x4eu8]),
        code@ == seq![0x42u8, 0x54u8, 0x4eu8],
        code.text() == "BTN"@,
{
    proof {
        reveal_strlit("BTN");
        assert(ascii_chars(seq![0x42u8, 0x54u8, 0x4eu8]) =~= "BTN"@);
    }
    CurrencyCode::from_array([0x42, 0x54, 0x4e])
}

/// The `BUSD` currency code.
pub fn BUSD() -> (code: CurrencyCode)
    ensures
        code == code_of(seq![0x42u8, 0x55u8, 0x53u8, 0x44u8]),
        code@ == seq![0x42u8, 0x55u8, 0x53u8, 0x44u8],
        code.text() == "BUSD"@,
{
    proof {
        reveal_strlit("BUSD");
        assert(ascii_chars(seq![0x42u8, 0x55u8, 0x53u8, 0x44u8]) =~= "BUSD"@);
    }
    CurrencyCode::from_array([0x42, 0x55, 0x53, 0x44])
}

/// The `BWP` currency code.
pub fn BWP() -> (code: CurrencyCode)
    ensures
        code == code_of(seq![0x42u8, 0x57u8, 0x50u8]),
        code@ == seq![0x42u8, 0x57u8, 0x50u8],
        code.text() == "BWP"@,
{
    proof {
        reveal_strlit("BWP");
        assert(ascii_chars(seq![0x42u8, 0x57u8, 0x50u8]) =~= "BWP"@);
    }
    CurrencyCode::from_array([0x42, 0x57, 0x50])
}

/// The `BYN` currency code.
pub fn BYN() -> (code: CurrencyCode)
    ensures
        code == code_of(seq![0x42u8, 0x59u8, 0x4eu8]),
        code@ == seq![0x42u8, 0x59u8, 0x4eu8],
        code.text() == "BYN"@,
{
    proof {
        reveal_strlit("BYN");
        assert(ascii_chars(seq![0x42u8, 0x59u8, 0x4eu8]) =~= "BYN"@);
    }
    CurrencyCode::from_array([0x42, 0x59, 0x4e])
}

/// The `BYR` currency code.
pub fn BYR() -> (code: CurrencyCode)
    ensures
        code == code_of(seq![0x42u8, 0x59u8, 0x52u8]),
        code@ == seq![0x42u8, 0x59u8, 0x52u8],
        code.text() == "BYR"@,
{
    proof {
        reveal_strlit("BYR");
        assert(ascii_chars(seq![0x42u8, 0x59u8, 0x52u8]) =~= "BYR"@);
    }
    CurrencyCode::from_array([0x42, 0x59, 0x52])
}

/// The `BZD` currency code.
pub fn BZD() -> (code: CurrencyCode)
    ensures
        code == code_of(seq![0x42u8, 0x5au8, 0x44u8]),
        code@ == seq![0x42u8, 0x5au8, 0x44u8],
        code.text() == "BZD"@,
{
    proof {
        reveal_strlit("BZD");
        assert(ascii_chars(seq![0x42u8, 0x5au8, 0x44u8]) =~= "BZD"@);
    }
    CurrencyCode::from_array([0x42, 0x5a, 0x44])
}

/// The `CAD` currency code.
pub fn CAD() -> (code: CurrencyCode)
    ensures
        code == code_of(seq![0x43u8, 0x41u8, 0x44u8]),
        code@ == seq![0x43u8, 0x41u8, 0x44u8],
        code.text() == "CAD"@,
{
    proof {
        reveal_strlit("CAD");
        assert(ascii_chars(seq![0x43u8, 0x41u8, 0x44u8]) =~= "CAD"@);
    }
    CurrencyCode::from_array([0x43, 0x41, 0x44])
}

/// The `CDF` currency code.
pub fn CDF() -> (code: CurrencyCode)
    ensures
        code == code_of(seq![0x43u8, 0x44u8, 0x46u8]),
        code@ == seq![0x43u8, 0x44u8, 0x46u8],
        code.text() == "CDF"@,
{
    proof {
        reveal_strlit("CDF");
        assert(ascii_chars(seq![0x43u8, 0x44u8, 0x46u8]) =~= "CDF"@);
    }
    CurrencyCode::from_array([0x43, 0x44, 0x46])
}

/// The `CHF` currency code.
pub fn CHF() -> (code: CurrencyCode)
    ensures
        code == code_of(seq![0x43u8, 0x48u8, 0x46u8]),
        code@ == seq![0x43u8, 0x48u8, 0x46u8],
        code.text() == "CHF"@,
{
    proof {
        reveal_strlit("CHF");
        assert(ascii_chars(seq![0x43u8, 0x48u8, 0x46u8]) =~= "CHF"@);
    }
    CurrencyCode::from_array([0x43, 0x48, 0x46])
}

/// The `CLF` currency code.
pub fn CLF() -> (code: CurrencyCode)
    ensures
        code == code_of(seq![0x43u8, 0x4cu8, 0x46u8]),
        code@ == seq![0x43u8, 0x4cu8, 0x46u8],
        code.text() == "CLF"@,
{
    proof {
        reveal_strlit("CLF");
        assert(ascii_chars(seq![0x43u8, 0x4cu8, 0x46u8]) =~= "CLF"@);
    }
    CurrencyCode::from_array([0x43, 0x4c, 0x46])
}

/// The `CLP` currency code.
pub fn CLP() -> (code: CurrencyCode)
    ensures
        code == code_of(seq![0x43u8, 0x4cu8, 0x50u8]),
        code@ == seq![0x43u8, 0x4cu8, 0x50u8],
        code.text() == "CLP"@,
{
    proof {
        reveal_strlit("CLP");
        assert(ascii_chars(seq![0x43u8, 0x4cu8, 0x50u8]) =~= "CLP"@);
    }
    CurrencyCode::from_array([0x43, 0x4c, 0x50])
}

/// The `CNY` currency code.
pub fn CNY() -> (code: CurrencyCode)
    ensures
        code == code_of(seq![0x43u8, 0x4eu8, 0x59u8]),
        code@ == seq![0x43u8, 0x4eu8, 0x59u8],
        code.text() == "CNY"@,
{
    proof {
        reveal_strlit("CNY");
        assert(ascii_chars(seq![0x43u8, 0x4eu8, 0x59u8]) =~= "CNY"@);
    }
    CurrencyCode::from_array([0x43, 0x4e, 0x59])
}

/// The `COP` currency code.
pub fn COP() -> (code: CurrencyCode)
    ensures
        code == code_of(seq![0x43u8, 0x4fu8, 0x50u8]),
        code@ == seq![0x43u8, 0x4fu8, 0x50u8],
        code.text() == "COP"@,
{
    proof {
        reveal_strlit("COP");
        assert(ascii_chars(seq![0x43u8, 0x4fu8, 0x50u8]) =~= "COP"@);
    }
    CurrencyCode::from_array([0x43, 0x4f, 0x50])
}

/// The `CRC` currency code.
pub fn CRC() -> (code: CurrencyCode)
    ensures
        code == code_of(seq![0x43u8, 0x52u8, 0x43u8]),
        code@ == seq![0x43u8, 0x52u8, 0x43u8],
        code.text() == "CRC"@,
{
    proof {
        reveal_strlit("CRC");
        assert(ascii_chars(seq![0x43u8, 0x52u8, 0x43u8]) =~= "CRC"@);
    }
    CurrencyCode::from_array([0x43, 0x52, 0x43])
}

/// The `CUC` currency code.
pub fn CUC() -> (code: CurrencyCode)
    ensures
        code == code_of(seq![0x43u8, 0x55u8, 0x43u8]),
        code@ == seq![0x43u8, 0x55u8, 0x43u8],
        code.text() == "CUC"@,
{
    proof {
        reveal_strlit("CUC");
        assert(ascii_chars(seq![0x43u8, 0x55u8, 0x43u8]) =~= "CUC"@);
    }
    CurrencyCode::from_array([0x43, 0x55, 0x43])
}

/// The `CUP` currency code.
pub fn CUP() -> (code: CurrencyCode)
    ensures
        code == code_of(seq![0x43u8, 0x55u8, 0x50u8]),
        code@ == seq![0x43u8, 0x55u8, 0x50u8],
        code.text() == "CUP"@,
{
    proof {
        reveal_strlit("CUP");
        assert(ascii_chars(seq![0x43u8, 0x55u8, 0x50u8]) =~= "CUP"@);
    }
    CurrencyCode::from_array([0x43, 0x55, 0x50])
}

/// The `CVE` currency code.
pub fn CVE() -> (code: CurrencyCode)
    ensures
        code == code_of(seq![0x43u8, 0x56u8, 0x45u8]),
        code@ == seq![0x43u8, 0x56u8, 0x45u8],
        code.text() == "CVE"@,
{
    proof {
        reveal_strlit("CVE");
        assert(ascii_chars(seq![0x43u8, 0x56u8, 0x45u8]) =~= "CVE"@);
    }
    CurrencyCode::from_array([0x43, 0x56, 0x45])
}

/// The `CZK` currency code.
pub fn CZK() -> (code: CurrencyCode)
    ensures
        code == code_of(seq![0x43u8, 0x5au8, 0x4bu8]),
        code@ == seq![0x43u8, 0x5au8, 0x4bu8],
        code.text() == "CZK"@,
{
    proof {
        reveal_strlit("CZK");
        assert(ascii_chars(seq![0x43u8, 0x5au8, 0x4bu8]) =~= "CZK"@);
    }
    CurrencyCode::from_array([0x43, 0x5a, 0x4b])
}

/// The `DAI` currency code.
pub fn DAI() -> (code: CurrencyCode)
    ensures
        code == code_of(seq![0x44u8, 0x41u8, 0x49u8]),
        code@ == seq![0x44u8, 0x41u8, 0x49u8],
        code.text() == "DAI"@,
{
    proof {
        reveal_strlit("DAI");
        assert(ascii_chars(seq![0x44u8, 0x41u8, 0x49u8]) =~= "DAI"@);
    }
    CurrencyCode::from_array([0x44, 0x41, 0x49])
}

/// The `DJF` currency code.
pub fn DJF() -> (code: CurrencyCode)
    ensures
        code == code_of(seq![0x44u8, 0x4au8, 0x46u8]),
        code@ == seq![0x44u8, 0x4au8, 0x46u8],
        code.text() == "DJF"@,
{
    proof {
        reveal_strlit("DJF");
        assert(ascii_chars(seq![0x44u8, 0x4au8, 0x46u8]) =~= "DJF"@);
    }
    CurrencyCode::from_array([0x44, 0x4a, 0x46])
}

/// The `DKK` currency code.
pub fn DKK() -> (code: CurrencyCode)
    ensures
        code == code_of(seq![0x44u8, 0x4bu8, 0x4bu8]),
        code@ == seq![0x44u8, 0x4bu8, 0x4bu8],
        code.text() == "DKK"@,
{
    proof {
        reveal_strlit("DKK");
        assert(ascii_chars(seq![0x44u8, 0x4bu8, 0x4bu8]) =~= "DKK"@);
    }
    CurrencyCode::from_array([0x44, 0x4b, 0x4b])
}

/// The `DOP` currency code.
pub fn DOP() -> (code: CurrencyCode)
    ensures
        code == code_of(seq![0x44u8, 0x4fu8, 0x50u8]),
        code@ == seq![0x44u8, 0x4fu8, 0x50u8],
        code.text() == "DOP"@,
{
    proof {
        reveal_strlit("DOP");
        assert(ascii_chars(seq![0x44u8, 0x4fu8, 0x50u8]) =~= "DOP"@);
    }
    CurrencyCode::from_array([0x44, 0x4f, 0x50])
}

/// The `DOT` currency code.
pub fn DOT() -> (code: CurrencyCode)
    ensures
        code == code_of(seq![0x44u8, 0x4fu8, 0x54u8]),
        code@ == seq![0x44u8, 0x4fu8, 0x54u8],
        code.text() == "DOT"@,
{
    proof {
        reveal_strlit("DOT");
        assert(ascii_chars(seq![0x44u8, 0x4fu8, 0x54u8]) =~= "DOT"@);
    }
    CurrencyCode::from_array([0x44, 0x4f, 0x54])
}

/// The `DZD` currency code.
pub fn DZD() -> (code: CurrencyCode)
    ensures
        code == code_of(seq![0x44u8, 0x5au8, 0x44u8]),
        code@ == seq![0x44u8, 0x5au8, 0x44u8],
        code.text() == "DZD"@,
{
    proof {
        reveal_strlit("DZD");
        assert(ascii_chars(seq![0x44u8, 0x5au8, 0x44u8]) =~= "DZD"@);
    }
    CurrencyCode::from_array([0x44, 0x5a, 0x44])
}

/// The `EGP` currency code.
pub fn EGP() -> (code: CurrencyCode)
    ensures
        code == code_of(seq![0x45u8, 0x47u8, 0x50u8]),
        code@ == seq![0x45u8, 0x47u8, 0x50u8],
        code.text() == "EGP"@,
{
    proof {
        reveal_strlit("EGP");
        assert(ascii_chars(seq![0x45u8, 0x47u8, 0x50u8]) =~= "EGP"@);
    }
    CurrencyCode::from_array([0x45, 0x47, 0x50])
}

/// The `ERN` currency code.
pub fn ERN() -> (code: CurrencyCode)
    ensures
        code == code_of(seq![0x45u8, 0x52u8, 0x4eu8]),
        code@ == seq![0x45u8, 0x52u8, 0x4eu8],
        code.text() == "ERN"@,
{
    proof {
        reveal_strlit("ERN");
        assert(ascii_chars(seq![0x45u8, 0x52u8, 0x4eu8]) =~= "ERN"@);
    }
    CurrencyCode::from_array([0x45, 0x52, 0x4e])
}

/// The `ETB` currency code.
pub fn ETB() -> (code: CurrencyCode)
    ensures
        code == code_of(seq![0x45u8, 0x54u8, 0x42u8]),
        code@ == seq![0x45u8, 0x54u8, 0x42u8],
        code.text() == "ETB"@,
{
    proof {
        reveal_strlit("ETB");
        assert(ascii_chars(seq![0x45u8, 0x54u8, 0x42u8]) =~= "ETB"@);
    }
    CurrencyCode::from_array([0x45, 0x54, 0x42])
}

/// The `ETH` currency code.
pub fn ETH() -> (code: CurrencyCode)
    ensures
        code == code_of(seq![0x45u8, 0x54u8, 0x48u8]),
        code@ == seq![0x45u8, 0x54u8, 0x48u8],
        code.text() == "ETH"@,
{
    proof {
        reveal_strlit("ETH");
        assert(ascii_chars(seq![0x45u8, 0x54u8, 0x48u8]) =~= "ETH"@);
    }
    CurrencyCode::from_array([0x45, 0x54, 0x48])
}

/// The `EUR` currency code.
pub fn EUR() -> (code: CurrencyCode)
    ensures
        code == code_of(seq![0x45u8, 0x55u8, 0x52u8]),
        code@ == seq![0x45u8, 0x55u8, 0x52u8],
        code.text() == "EUR"@,
{
    proof {
        reveal_strlit("EUR");
        assert(ascii_chars(seq![0x45u8, 0x55u8, 0x52u8]) =~= "EUR"@);
    }
    CurrencyCode::from_array([0x45, 0x55, 0x52])
}

/// The `FJD` currency code.
pub fn FJD() -> (code: CurrencyCode)
    ensures
        code == code_of(seq![0x46u8, 0x4au8, 0x44u8]),
        code@ == seq![0x46u8, 0x4au8, 0x44u8],
        code.text() == "FJD"@,
{
    proof {
        reveal_strlit("FJD");
        assert(ascii_chars(seq![0x46u8, 0x4au8, 0x44u8]) =~= "FJD"@);
    }
    CurrencyCode::from_array([0x46, 0x4a, 0x44])
}

/// The `FKP` currency code.
pub fn FKP() -> (code: CurrencyCode)
    ensures
        code == code_of(seq![0x46u8, 0x4bu8, 0x50u8]),
        code@ == seq![0x46u8, 0x4bu8, 0x50u8],
        code.text() == "FKP"@,
{
    proof {
        reveal_strlit("FKP");
        assert(ascii_chars(seq![0x46u8, 0x4bu8, 0x50u8]) =~= "FKP"@);
    }
    CurrencyCode::from_array([0x46, 0x4b, 0x50])
}

/// The `GBP` currency code.
pub fn GBP() -> (code: CurrencyCode)
    ensures
        code == code_of(seq![0x47u8, 0x42u8, 0x50u8]),
        code@ == seq![0x47u8, 0x42u8, 0x50u8],
        code.text() == "GBP"@,
{
    proof {
        reveal_strlit("GBP");
        assert(ascii_chars(seq![0x47u8, 0x42u8, 0x50u8]) =~= "GBP"@);
    }
    CurrencyCode::from_array([0x47, 0x42, 0x50])
}

/// The `GEL` currency code.
pub fn GEL() -> (code: CurrencyCode)
    ensures
        code == code_of(seq![0x47u8, 0x45u8, 0x4cu8]),
        code@ == seq![0x47u8, 0x45u8, 0x4cu8],
        code.text() == "GEL"@,
{
    proof {
        reveal_strlit("GEL");
        assert(ascii_chars(seq![0x47u8, 0x45u8, 0x4cu8]) =~= "GEL"@);
    }
    CurrencyCode::from_array([0x47, 0x45, 0x4c])
}

/// The `GGP` currency code.
pub fn GGP() -> (code: CurrencyCode)
    ensures
        code == code_of(seq![0x47u8, 0x47u8, 0x50u8]),
        code@ == seq![0x47u8, 0x47u8, 0x50u8],
        code.text() == "GGP"@,
{
    proof {
        reveal_strlit("GGP");
        assert(ascii_chars(seq![0x47u8, 0x47u8, 0x50u8]) =~= "GGP"@);
    }
    CurrencyCode::from_array([0x47, 0x47, 0x50])
}

/// The `GHS` currency code.
pub fn GHS() -> (code: CurrencyCode)
    ensures
        code == code_of(seq![0x47u8, 0x48u8, 0x53u8]),
        code@ == seq![0x47u8, 0x48u8, 0x53u8],
        code.text() == "GHS"@,
{
    proof {
        reveal_strlit("GHS");
        assert(ascii_chars(seq![0x47u8, 0x48u8, 0x53u8]) =~= "GHS"@);
    }
    CurrencyCode::from_array([0x47, 0x48, 0x53])
}

/// The `GIP` currency code.
pub fn GIP() -> (code: CurrencyCode)
    ensures
        code == code_of(seq![0x47u8, 0x49u8, 0x50u8]),
        code@ == seq![0x47u8, 0x49u8, 0x50u8],
        code.text() == "GIP"@,
{
    proof {
        reveal_strlit("GIP");
        assert(ascii_chars(seq![0x47u8, 0x49u8, 0x50u8]) =~= "GIP"@);
    }
    CurrencyCode::from_array([0x47, 0x49, 0x50])
}

/// The `GMD` currency code.
pub fn GMD() -> (code: CurrencyCode)
    ensures
        code == code_of(seq![0x47u8, 0x4du8, 0x44u8]),
        code@ == seq![0x47u8, 0x4du8, 0x44u8],
        code.text() == "GMD"@,
{
    proof {
        reveal_strlit("GMD");
        assert(ascii_chars(seq![0x47u8, 0x4du8, 0x44u8]) =~= "GMD"@);
    }
    CurrencyCode::from_array([0x47, 0x4d, 0x44])
}

/// The `GNF` currency code.
pub fn GNF() -> (code: CurrencyCode)
    ensures
        code == code_of(seq![0x47u8, 0x4eu8, 0x46u8]),
        code@ == seq![0x47u8, 0x4eu8, 0x46u8],
        code.text() == "GNF"@,
{
    proof {
        reveal_strlit("GNF");
        assert(ascii_chars(seq![0x47u8, 0x4eu8, 0x46u8]) =~= "GNF"@);
    }
    CurrencyCode::from_array([0x47, 0x4e, 0x46])
}

/// The `GTQ` currency code.
pub fn GTQ() -> (code: CurrencyCode)
    ensures
        code == code_of(seq![0x47u8, 0x54u8, 0x51u8]),
        code@ == seq![0x47u8, 0x54u8, 0x51u8],
        code.text() == "GTQ"@,
{
    proof {
        reveal_strlit("GTQ");
        assert(ascii_chars(seq![0x47u8, 0x54u8, 0x51u8]) =~= "GTQ"@);
    }
    CurrencyCode::from_array([0x47, 0x54, 0x51])
}

/// The `GYD` currency code.
pub fn GYD() -> (code: CurrencyCode)
    ensures
        code == code_of(seq![0x47u8, 0x59u8, 0x44u8]),
        code@ == seq![0x47u8, 0x59u8, 0x44u8],
        code.text() == "GYD"@,
{
    proof {
        reveal_strlit("GYD");
        assert(ascii_chars(seq![0x47u8, 0x59u8, 0x44u8]) =~= "GYD"@);
    }
    CurrencyCode::from_array([0x47, 0x59, 0x44])
}

/// The `HKD` currency code.
pub fn HKD() -> (code: CurrencyCode)
    ensures
        code == code_of(seq![0x48u8, 0x4bu8, 0x44u8]),
        code@ == seq![0x48u8, 0x4bu8, 0x44u8],
        code.text() == "HKD"@,
{
    proof {
        reveal_strlit("HKD");
        assert(ascii_chars(seq![0x48u8, 0x4bu8, 0x44u8]) =~= "HKD"@);
    }
    CurrencyCode::from_array([0x48, 0x4b, 0x44])
}

/// The `HNL` currency code.
pub fn HNL() -> (code: CurrencyCode)
    ensures
        code == code_of(seq![0x48u8, 0x4eu8, 0x4cu8]),
        code@ == seq![0x48u8, 0x4eu8, 0x4cu8],
        code.text() == "HNL"@,
{
    proof {
        reveal_strlit("HNL");
        assert(ascii_chars(seq![0x48u8, 0x4eu8, 0x4cu8]) =~= "HNL"@);
    }
    CurrencyCode::from_array([0x48, 0x4e, 0x4c])
}

/// The `HRK` currency code.
pub fn HRK() -> (code: CurrencyCode)
    ensures
        code == code_of(seq![0x48u8, 0x52u8, 0x4bu8]),
        code@ == seq![0x48u8, 0x52u8, 0x4bu8],
        code.text() == "HRK"@,
{
    proof {
        reveal_strlit("HRK");
        assert(ascii_chars(seq![0x48u8, 0x52u8, 0x4bu8]) =~= "HRK"@);
    }
    CurrencyCode::from_array([0x48, 0x52, 0x4b])
}

/// The `HTG` currency code.
pub fn HTG() -> (code: CurrencyCode)
    ensures
        code == code_of(seq![0x48u8, 0x54u8, 0x47u8]),
        code@ == seq![0x48u8, 0x54u8, 0x47u8],
        code.text() == "HTG"@,
{
    proof {
        reveal_strlit("HTG");
        assert(ascii_chars(seq![0x48u8, 0x54u8, 0x47u8]) =~= "HTG"@);
    }
    CurrencyCode::from_array([0x48, 0x54, 0x47])
}

/// The `HUF` currency code.
pub fn HUF() -> (code: CurrencyCode)
    ensures
        code == code_of(seq![0x48u8, 0x55u8, 0x46u8]),
        code@ == seq![0x48u8, 0x55u8, 0x46u8],
        code.text() == "HUF"@,
{
    proof {
        reveal_strlit("HUF");
        assert(ascii_chars(seq![0x48u8, 0x55u8, 0x46u8]) =~= "HUF"@);
    }
    CurrencyCode::from_array([0x48, 0x55, 0x46])
}

/// The `IDR` currency code.
pub fn IDR() -> (code: CurrencyCode)
    ensures
        code == code_of(seq![0x49u8, 0x44u8, 0x52u8]),
        code@ == seq![0x49u8, 0x44u8, 0x52u8],
        code.text() == "IDR"@,
{
    proof {
        reveal_strlit("IDR");
        assert(ascii_chars(seq![0x49u8, 0x44u8, 0x52u8]) =~= "IDR"@);
    }
    CurrencyCode::from_array([0x49, 0x44, 0x52])
}

/// The `ILS` currency code.
pub fn ILS() -> (code: CurrencyCode)
    ensures
        code == code_of(seq![0x49u8, 0x4cu8, 0x53u8]),
        code@ == seq![0x49u8, 0x4cu8, 0x53u8],
        code.text() == "ILS"@,
{
    proof {
        reveal_strlit("ILS");
        assert(ascii_chars(seq![0x49u8, 0x4cu8, 0x53u8]) =~= "ILS"@);
    }
    CurrencyCode::from_array([0x49, 0x4c, 0x53])
}

/// The `IMP` currency code.
pub fn IMP() -> (code: CurrencyCode)
    ensures
        code == code_of(seq![0x49u8, 0x4du8, 0x50u8]),
        code@ == seq![0x49u8, 0x4du8, 0x50u8],
        code.text() == "IMP"@,
{
    proof {
        reveal_strlit("IMP");
        assert(ascii_chars(seq![0x49u8, 0x4du8, 0x50u8]) =~= "IMP"@);
    }
    CurrencyCode::from_array([0x49, 0x4d, 0x50])
}

/// The `INR` currency code.
pub fn INR() -> (code: CurrencyCode)
    ensures
        code == code_of(seq![0x49u8, 0x4eu8, 0x52u8]),
        code@ == seq![0x49u8, 0x4eu8, 0x52u8],
        code.text() == "INR"@,
{
    proof {
        reveal_strlit("INR");
        assert(ascii_chars(seq![0x49u8, 0x4eu8, 0x52u8]) =~= "INR"@);
    }
    CurrencyCode::from_array([0x49, 0x4e, 0x52])
}

/// The `IQD` currency code.
pub fn IQD() -> (code: CurrencyCode)
    ensures
        code == code_of(seq![0x49u8, 0x51u8, 0x44u8]),
        code@ == seq![0x49u8, 0x51u8, 0x44u8],
        code.text() == "IQD"@,
{
    proof {
        reveal_strlit("IQD");
        assert(ascii_chars(seq![0x49u8, 0x51u8, 0x44u8]) =~= "IQD"@);
    }
    CurrencyCode::from_array([0x49, 0x51, 0x44])
}

/// The `IRR` currency code.
pub fn IRR() -> (code: CurrencyCode)
    ensures
        code == code_of(seq![0x49u8, 0x52u8, 0x52u8]),
        code@ == seq![0x49u8, 0x52u8, 0x52u8],
        code.text() == "IRR"@,
{
    proof {
        reveal_strlit("IRR");
        assert(ascii_chars(seq![0x49u8, 0x52u8, 0x52u8]) =~= "IRR"@);
    }
    CurrencyCode::from_array([0x49, 0x52, 0x52])
}

/// The `ISK` currency code.
pub fn ISK() -> (code: CurrencyCode)
    ensures
        code == code_of(seq![0x49u8, 0x53u8, 0x4bu8]),
        code@ == seq![0x49u8, 0x53u8, 0x4bu8],
        code.text() == "ISK"@,
{
    proof {
        reveal_strlit("ISK");
        assert(ascii_chars(seq![0x49u8, 0x53u8, 0x4bu8]) =~= "ISK"@);
    }
    CurrencyCode::from_array([0x49, 0x53, 0x4b])
}

/// The `JEP` currency code.
pub fn JEP() -> (code: CurrencyCode)
    ensures
        code == code_of(seq![0x4au8, 0x45u8, 0x50u8]),
        code@ == seq![0x4au8, 0x45u8, 0x50u8],
        code.text() == "JEP"@,
{
    proof {
        reveal_strlit("JEP");
        assert(ascii_chars(seq![0x4au8, 0x45u8, 0x50u8]) =~= "JEP"@);
    }
    CurrencyCode::from_array([0x4a, 0x45, 0x50])
}

/// The `JMD` currency code.
pub fn JMD() -> (code: CurrencyCode)
    ensures
        code == code_of(seq![0x4au8, 0x4du8, 0x44u8]),
        code@ == seq![0x4au8, 0x4du8, 0x44u8],
        code.text() == "JMD"@,
{
    proof {
        reveal_strlit("JMD");
        assert(ascii_chars(seq![0x4au8, 0x4du8, 0x44u8]) =~= "JMD"@);
    }
    CurrencyCode::from_array([0x4a, 0x4d, 0x44])
}

/// The `JOD` currency code.
pub fn JOD() -> (code: CurrencyCode)
    ensures
        code == code_of(seq![0x4au8, 0x4fu8, 0x44u8]),
        code@ == seq![0x4au8, 0x4fu8, 0x44u8],
        code.text() == "JOD"@,
{
    proof {
        reveal_strlit("JOD");
        assert(ascii_chars(seq![0x4au8, 0x4fu8, 0x44u8]) =~= "JOD"@);
    }
    CurrencyCode::from_array([0x4a, 0x4f, 0x44])
}

/// The `JPY` currency code.
pub fn JPY() -> (code: CurrencyCode)
    ensures
        code == code_of(seq![0x4au8, 0x50u8, 0x59u8]),
        code@ == seq![0x4au8, 0x50u8, 0x59u8],
        code.text() == "JPY"@,
{
    proof {
        reveal_strlit("JPY");
        assert(ascii_chars(seq![0x4au8, 0x50u8, 0x59u8]) =~= "JPY"@);
    }
    CurrencyCode::from_array([0x4a, 0x50, 0x59])
}

/// The `KES` currency code.
pub fn KES() -> (code: CurrencyCode)
    ensures
        code == code_of(seq![0x4bu8, 0x45u8, 0x53u8]),
        code@ == seq![0x4bu8, 0x45u8, 0x53u8],
        code.text() == "KES"@,
{
    proof {
        reveal_strlit("KES");
        assert(ascii_chars(seq![0x4bu8, 0x45u8, 0x53u8]) =~= "KES"@);
    }
    CurrencyCode::from_array([0x4b, 0x45, 0x53])
}

/// The `KGS` currency code.
pub fn KGS() -> (code: CurrencyCode)
    ensures
        code == code_of(seq![0x4bu8, 0x47u8, 0x53u8]),
        code@ == seq![0x4bu8, 0x47u8, 0x53u8],
        code.text() == "KGS"@,
{
    proof {
        reveal_strlit("KGS");
        assert(ascii_chars(seq![0x4bu8, 0x47u8, 0x53u8]) =~= "KGS"@);
    }
    CurrencyCode::from_array([0x4b, 0x47, 0x53])
}

/// The `KHR` currency code.
pub fn KHR() -> (code: CurrencyCode)
    ensures
        code == code_of(seq![0x4bu8, 0x48u8, 0x52u8]),
        code@ == seq![0x4bu8, 0x48u8, 0x52u8],
        code.text() == "KHR"@,
{
    proof {
        reveal_strlit("KHR");
        assert(ascii_chars(seq![0x4bu8, 0x48u8, 0x52u8]) =~= "KHR"@);
    }
    CurrencyCode::from_array([0x4b, 0x48, 0x52])
}

/// The `KMF` currency code.
pub fn KMF() -> (code: CurrencyCode)
    ensures
        code == code_of(seq![0x4bu8, 0x4du8, 0x46u8]),
        code@ == seq![0x4bu8, 0x4du8, 0x46u8],
        code.text() == "KMF"@,
{
    proof {
        reveal_strlit("KMF");
        assert(ascii_chars(seq![0x4bu8, 0x4du8, 0x46u8]) =~= "KMF"@);
    }
    CurrencyCode::from_array([0x4b, 0x4d, 0x46])
}

/// The `KPW` currency code.
pub fn KPW() -> (code: CurrencyCode)
    ensures
        code == code_of(seq![0x4bu8, 0x50u8, 0x57u8]),
        code@ == seq![0x4bu8, 0x50u8, 0x57u8],
        code.text() == "KPW"@,
{
    proof {
        reveal_strlit("KPW");
        assert(ascii_chars(seq![0x4bu8, 0x50u8, 0x57u8]) =~= "KPW"@);
    }
    CurrencyCode::from_array([0x4b, 0x50, 0x57])
}

/// The `KRW` currency code.
pub fn KRW() -> (code: CurrencyCode)
    ensures
        code == code_of(seq![0x4bu8, 0x52u8, 0x57u8]),
        code@ == seq![0x4bu8, 0x52u8, 0x57u8],
        code.text() == "KRW"@,
{
    proof {
        reveal_strlit("KRW");
        assert(ascii_chars(seq![0x4bu8, 0x52u8, 0x57u8]) =~= "KRW"@);
    }
    CurrencyCode::from_array([0x4b, 0x52, 0x57])
}

/// The `KWD` currency code.
pub fn KWD() -> (code: CurrencyCode)
    ensures
        code == code_of(seq![0x4bu8, 0x57u8, 0x44u8]),
        code@ == seq![0x4bu8, 0x57u8, 0x44u8],
        code.text() == "KWD"@,
{
    proof {
        reveal_strlit("KWD");
        assert(ascii_chars(seq![0x4bu8, 0x57u8, 0x44u8]) =~= "KWD"@);
    }
    CurrencyCode::from_array([0x4b, 0x57, 0x44])
}

/// The `KYD` currency code.
pub fn KYD() -> (code: CurrencyCode)
    ensures
        code == code_of(seq![0x4bu8, 0x59u8, 0x44u8]),
        code@ == seq![0x4bu8, 0x59u8, 0x44u8],
        code.text() == "KYD"@,
{
    proof {
        reveal_strlit("KYD");
        assert(ascii_chars(seq![0x4bu8, 0x59u8, 0x44u8]) =~= "KYD"@);
    }
    CurrencyCode::from_array([0x4b, 0x59, 0x44])
}

/// The `KZT` currency code.
pub fn KZT() -> (code: CurrencyCode)
    ensures
        code == code_of(seq![0x4bu8, 0x5au8, 0x54u8]),
        code@ == seq![0x4bu8, 0x5au8, 0x54u8],
        code.text() == "KZT"@,
{
    proof {
        reveal_strlit("KZT");
        assert(ascii_chars(seq![0x4bu8, 0x5au8, 0x54u8]) =~= "KZT"@);
    }
    CurrencyCode::from_array([0x4b, 0x5a, 0x54])
}

/// The `LAK` currency code.
pub fn LAK() -> (code: CurrencyCode)
    ensures
        code == code_of(seq![0x4cu8, 0x41u8, 0x4bu8]),
        code@ == seq![0x4cu8, 0x41u8, 0x4bu8],
        code.text() == "LAK"@,
{
    proof {
        reveal_strlit("LAK");
        assert(ascii_chars(seq![0x4cu8, 0x41u8, 0x4bu8]) =~= "LAK"@);
    }
    CurrencyCode::from_array([0x4c, 0x41, 0x4b])
}

/// The `LBP` currency code.
pub fn LBP() -> (code: CurrencyCode)
    ensures
        code == code_of(seq![0x4cu8, 0x42u8, 0x50u8]),
        code@ == seq![0x4cu8, 0x42u8, 0x50u8],
        code.text() == "LBP"@,
{
    proof {
        reveal_strlit("LBP");
        assert(ascii_chars(seq![0x4cu8, 0x42u8, 0x50u8]) =~= "LBP"@);
    }
    CurrencyCode::from_array([0x4c, 0x42, 0x50])
}

/// The `LKR` currency code.
pub fn LKR() -> (code: CurrencyCode)
    ensures
        code == code_of(seq![0x4cu8, 0x4bu8, 0x52u8]),
        code@ == seq![0x4cu8, 0x4bu8, 0x52u8],
        code.text() == "LKR"@,
{
    proof {
        reveal_strlit("LKR");
        assert(ascii_chars(seq![0x4cu8, 0x4bu8, 0x52u8]) =~= "LKR"@);
    }
    CurrencyCode::from_array([0x4c, 0x4b, 0x52])
}

/// The `LRD` currency code.
pub fn LRD() -> (code: CurrencyCode)
    ensures
        code == code_of(seq![0x4cu8, 0x52u8, 0x44u8]),
        code@ == seq![0x4cu8, 0x52u8, 0x44u8],
        code.text() == "LRD"@,
{
    proof {
        reveal_strlit("LRD");
        assert(ascii_chars(seq![0x4cu8, 0x52u8, 0x44u8]) =~= "LRD"@);
    }
    CurrencyCode::from_array([0x4c, 0x52, 0x44])
}

/// The `LSL` currency code.
pub fn LSL() -> (code: CurrencyCode)
    ensures
        code == code_of(seq![0x4cu8, 0x53u8, 0x4cu8]),
        code@ == seq![0x4cu8, 0x53u8, 0x4cu8],
        code.text() == "LSL"@,
{
    proof {
        reveal_strlit("LSL");
        assert(ascii_chars(seq![0x4cu8, 0x53u8, 0x4cu8]) =~= "LSL"@);
    }
    CurrencyCode::from_array([0x4c, 0x53, 0x4c])
}

/// The `LTC` currency code.
pub fn LTC() -> (code: CurrencyCode)
    ensures
        code == code_of(seq![0x4cu8, 0x54u8, 0x43u8]),
        code@ == seq![0x4cu8, 0x54u8, 0x43u8],
        code.text() == "LTC"@,
{
    proof {
        reveal_strlit("LTC");
        assert(ascii_chars(seq![0x4cu8, 0x54u8, 0x43u8]) =~= "LTC"@);
    }
    CurrencyCode::from_array([0x4c, 0x54, 0x43])
}

/// The `LTL` currency code.
pub fn LTL() -> (code: CurrencyCode)
    ensures
        code == code_of(seq![0x4cu8, 0x54u8, 0x4cu8]),
        code@ == seq![0x4cu8, 0x54u8, 0x4cu8],
        code.text() == "LTL"@,
{
    proof {
        reveal_strlit("LTL");
        assert(ascii_chars(seq![0x4cu8, 0x54u8, 0x4cu8]) =~= "LTL"@);
    }
    CurrencyCode::from_array([0x4c, 0x54, 0x4c])
}

/// The `LVL` currency code.
pub fn LVL() -> (code: CurrencyCode)
    ensures
        code == code_of(seq![0x4cu8, 0x56u8, 0x4cu8]),
        code@ == seq![0x4cu8, 0x56u8, 0x4cu8],
        code.text() == "LVL"@,
{
    proof {
        reveal_strlit("LVL");
        assert(ascii_chars(seq![0x4cu8, 0x56u8, 0x4cu8]) =~= "LVL"@);
    }
    CurrencyCode::from_array([0x4c, 0x56, 0x4c])
}

/// The `LYD` currency code.
pub fn LYD() -> (code: CurrencyCode)
    ensures
        code == code_of(seq![0x4cu8, 0x59u8, 0x44u8]),
        code@ == seq![0x4cu8, 0x59u8, 0x44u8],
        code.text() == "LYD"@,
{
    proof {
        reveal_strlit("LYD");
        assert(ascii_chars(seq![0x4cu8, 0x59u8, 0x44u8]) =~= "LYD"@);
    }
    CurrencyCode::from_array([0x4c, 0x59, 0x44])
}

/// The `MAD` currency code.
pub fn MAD() -> (code: CurrencyCode)
    ensures
        code == code_of(seq![0x4du8, 0x41u8, 0x44u8]),
        code@ == seq![0x4du8, 0x41u8, 0x44u8],
        code.text() == "MAD"@,
{
    proof {
        reveal_strlit("MAD");
        assert(ascii_chars(seq![0x4du8, 0x41u8, 0x44u8]) =~= "MAD"@);
    }
    CurrencyCode::from_array([0x4d, 0x41, 0x44])
}

/// The `MATIC` currency code.
pub fn MATIC() -> (code: CurrencyCode)
    ensures
        code == code_of(seq![0x4du8, 0x41u8, 0x54u8, 0x49u8, 0x43u8]),
        code@ == seq![0x4du8, 0x41u8, 0x54u8, 0x49u8, 0x43u8],
        code.text() == "MATIC"@,
{
    proof {
        reveal_strlit("MATIC");
        assert(ascii_chars(seq![0x4du8, 0x41u8, 0x54u8, 0x49u8, 0x43u8]) =~= "MATIC"@);
    }
    CurrencyCode::from_array([0x4d, 0x41, 0x54, 0x49, 0x43])
}

/// The `MDL` currency code.
pub fn MDL() -> (code: CurrencyCode)
    ensures
        code == code_of(seq![0x4du8, 0x44u8, 0x4cu8]),
        code@ == seq![0x4du8, 0x44u8, 0x4cu8],
        code.text() == "MDL"@,
{
    proof {
        reveal_strlit("MDL");
        assert(ascii_chars(seq![0x4du8, 0x44u8, 0x4cu8]) =~= "MDL"@);
    }
    CurrencyCode::from_array([0x4d, 0x44, 0x4c])
}

/// The `MGA` currency code.
pub fn MGA() -> (code: CurrencyCode)
    ensures
        code == code_of(seq![0x4du8, 0x47u8, 0x41u8]),
        code@ == seq![0x4du8, 0x47u8, 0x41u8],
        code.text() == "MGA"@,
{
    proof {
        reveal_strlit("MGA");
        assert(ascii_chars(seq![0x4du8, 0x47u8, 0x41u8]) =~= "MGA"@);
    }
    CurrencyCode::from_array([0x4d, 0x47, 0x41])
}

/// The `MKD` currency code.
pub fn MKD() -> (code: CurrencyCode)
    ensures
        code == code_of(seq![0x4du8, 0x4bu8, 0x44u8]),
        code@ == seq![0x4du8, 0x4bu8, 0x44u8],
        code.text() == "MKD"@,
{
    proof {
        reveal_strlit("MKD");
        assert(ascii_chars(seq![0x4du8, 0x4bu8, 0x44u8]) =~= "MKD"@);
    }
    CurrencyCode::from_array([0x4d, 0x4b, 0x44])
}

/// The `MMK` currency code.
pub fn MMK() -> (code: CurrencyCode)
    ensures
        code == code_of(seq![0x4du8, 0x4du8, 0x4bu8]),
        code@ == seq![0x4du8, 0x4du8, 0x4bu8],
        code.text() == "MMK"@,
{
    proof {
        reveal_strlit("MMK");
        assert(ascii_chars(seq![0x4du8, 0x4du8, 0x4bu8]) =~= "MMK"@);
    }
    CurrencyCode::from_array([0x4d, 0x4d, 0x4b])
}

/// The `MNT` currency code.
pub fn MNT() -> (code: CurrencyCode)
    ensures
        code == code_of(seq![0x4du8, 0x4eu8, 0x54u8]),
        code@ == seq![0x4du8, 0x4eu8, 0x54u8],
        code.text() == "MNT"@,
{
    proof {
        reveal_strlit("MNT");
        assert(ascii_chars(seq![0x4du8, 0x4eu8, 0x54u8]) =~= "MNT"@);
    }
    CurrencyCode::from_array([0x4d, 0x4e, 0x54])
}

/// The `MOP` currency code.
pub fn MOP() -> (code: CurrencyCode)
    ensures
        code == code_of(seq![0x4du8, 0x4fu8, 0x50u8]),
        code@ == seq![0x4du8, 0x4fu8, 0x50u8],
        code.text() == "MOP"@,
{
    proof {
        reveal_strlit("MOP");
        assert(ascii_chars(seq![0x4du8, 0x4fu8, 0x50u8]) =~= "MOP"@);
    }
    CurrencyCode::from_array([0x4d, 0x4f, 0x50])
}

/// The `MRO` currency code.
pub fn MRO() -> (code: CurrencyCode)
    ensures
        code == code_of(seq![0x4du8, 0x52u8, 0x4fu8]),
        code@ == seq![0x4du8, 0x52u8, 0x4fu8],
        code.text() == "MRO"@,
{
    proof {
        reveal_strlit("MRO");
        assert(ascii_chars(seq![0x4du8, 0x52u8, 0x4fu8]) =~= "MRO"@);
    }
    CurrencyCode::from_array([0x4d, 0x52, 0x4f])
}

/// The `MUR` currency code.
pub fn MUR() -> (code: CurrencyCode)
    ensures
        code == code_of(seq![0x4du8, 0x55u8, 0x52u8]),
        code@ == seq![0x4du8, 0x55u8, 0x52u8],
        code.text() == "MUR"@,
{
    proof {
        reveal_strlit("MUR");
        assert(ascii_chars(seq![0x4du8, 0x55u8, 0x52u8]) =~= "MUR"@);
    }
    CurrencyCode::from_array([0x4d, 0x55, 0x52])
}

/// The `MVR` currency code.
pub fn MVR() -> (code: CurrencyCode)
    ensures
        code == code_of(seq![0x4du8, 0x56u8, 0x52u8]),
        code@ == seq![0x4du8, 0x56u8, 0x52u8],
        code.text() == "MVR"@,
{
    proof {
        reveal_strlit("MVR");
        assert(ascii_chars(seq![0x4du8, 0x56u8, 0x52u8]) =~= "MVR"@);
    }
    CurrencyCode::from_array([0x4d, 0x56, 0x52])
}

/// The `MWK` currency code.
pub fn MWK() -> (code: CurrencyCode)
    ensures
        code == code_of(seq![0x4du8, 0x57u8, 0x4bu8]),
        code@ == seq![0x4du8, 0x57u8, 0x4bu8],
        code.text() == "MWK"@,
{
    proof {
        reveal_strlit("MWK");
        assert(ascii_chars(seq![0x4du8, 0x57u8, 0x4bu8]) =~= "MWK"@);
    }
    CurrencyCode::from_array([0x4d, 0x57, 0x4b])
}

/// The `MXN` currency code.
pub fn MXN() -> (code: CurrencyCode)
    ensures
        code == code_of(seq![0x4du8, 0x58u8, 0x4eu8]),
        code@ == seq![0x4du8, 0x58u8, 0x4eu8],
        code.text() == "MXN"@,
{
    proof {
        reveal_strlit("MXN");
        assert(ascii_chars(seq![0x4du8, 0x58u8, 0x4eu8]) =~= "MXN"@);
    }
    CurrencyCode::from_array([0x4d, 0x58, 0x4e])
}

/// The `MYR` currency code.
pub fn MYR() -> (code: CurrencyCode)
    ensures
        code == code_of(seq![0x4du8, 0x59u8, 0x52u8]),
        code@ == seq![0x4du8, 0x59u8, 0x52u8],
        code.text() == "MYR"@,
{
    proof {
        reveal_strlit("MYR");
        assert(ascii_chars(seq![0x4du8, 0x59u8, 0x52u8]) =~= "MYR"@);
    }
    CurrencyCode::from_array([0x4d, 0x59, 0x52])
}

/// The `MZN` currency code.
pub fn MZN() -> (code: CurrencyCode)
    ensures
        code == code_of(seq![0x4du8, 0x5au8, 0x4eu8]),
        code@ == seq![0x4du8, 0x5au8, 0x4eu8],
        code.text() == "MZN"@,
{
    proof {
        reveal_strlit("MZN");
        assert(ascii_chars(seq![0x4du8, 0x5au8, 0x4eu8]) =~= "MZN"@);
    }
    CurrencyCode::from_array([0x4d, 0x5a, 0x4e])
}

/// The `NAD` currency code.
pub fn NAD() -> (code: CurrencyCode)
    ensures
        code == code_of(seq![0x4eu8, 0x41u8, 0x44u8]),
        code@ == seq![0x4eu8, 0x41u8, 0x44u8],
        code.text() == "NAD"@,
{
    proof {
        reveal_strlit("NAD");
        assert(ascii_chars(seq![0x4eu8, 0x41u8, 0x44u8]) =~= "NAD"@);
    }
    CurrencyCode::from_array([0x4e, 0x41, 0x44])
}

/// The `NGN` currency code.
pub fn NGN() -> (code: CurrencyCode)
    ensures
        code == code_of(seq![0x4eu8, 0x47u8, 0x4eu8]),
        code@ == seq![0x4eu8, 0x47u8, 0x4eu8],
        code.text() == "NGN"@,
{
    proof {
        reveal_strlit("NGN");
        assert(ascii_chars(seq![0x4eu8, 0x47u8, 0x4eu8]) =~= "NGN"@);
    }
    CurrencyCode::from_array([0x4e, 0x47, 0x4e])
}

/// The `NIO` currency code.
pub fn NIO() -> (code: CurrencyCode)
    ensures
        code == code_of(seq![0x4eu8, 0x49u8, 0x4fu8]),
        code@ == seq![0x4eu8, 0x49u8, 0x4fu8],
        code.text() == "NIO"@,
{
    proof {
        reveal_strlit("NIO");
        assert(ascii_chars(seq![0x4eu8, 0x49u8, 0x4fu8]) =~= "NIO"@);
    }
    CurrencyCode::from_array([0x4e, 0x49, 0x4f])
}

/// The `NOK` currency code.
pub fn NOK() -> (code: CurrencyCode)
    ensures
        code == code_of(seq![0x4eu8, 0x4fu8, 0x4bu8]),
        code@ == seq![0x4eu8, 0x4fu8, 0x4bu8],
        code.text() == "NOK"@,
{
    proof {
        reveal_strlit("NOK");
        assert(ascii_chars(seq![0x4eu8, 0x4fu8, 0x4bu8]) =~= "NOK"@);
    }
    CurrencyCode::from_array([0x4e, 0x4f, 0x4b])
}

/// The `NPR` currency code.
pub fn NPR() -> (code: CurrencyCode)
    ensures
        code == code_of(seq![0x4eu8, 0x50u8, 0x52u8]),
        code@ == seq![0x4eu8, 0x50u8, 0x52u8],
        code.text() == "NPR"@,
{
    proof {
        reveal_strlit("NPR");
        assert(ascii_chars(seq![0x4eu8, 0x50u8, 0x52u8]) =~= "NPR"@);
    }
    CurrencyCode::from_array([0x4e, 0x50, 0x52])
}

/// The `NZD` currency code.
pub fn NZD() -> (code: CurrencyCode)
    ensures
        code == code_of(seq![0x4eu8, 0x5au8, 0x44u8]),
        code@ == seq![0x4eu8, 0x5au8, 0x44u8],
        code.text() == "NZD"@,
{
    proof {
        reveal_strlit("NZD");
        assert(ascii_chars(seq![0x4eu8, 0x5au8, 0x44u8]) =~= "NZD"@);
    }
    CurrencyCode::from_array([0x4e, 0x5a, 0x44])
}

/// The `OMR` currency code.
pub fn OMR() -> (code: CurrencyCode)
    ensures
        code == code_of(seq![0x4fu8, 0x4du8, 0x52u8]),
        code@ == seq![0x4fu8, 0x4du8, 0x52u8],
        code.text() == "OMR"@,
{
    proof {
        reveal_strlit("OMR");
        assert(ascii_chars(seq![0x4fu8, 0x4du8, 0x52u8]) =~= "OMR"@);
    }
    CurrencyCode::from_array([0x4f, 0x4d, 0x52])
}

/// The `OP` currency code.
pub fn OP() -> (code: CurrencyCode)
    ensures
        code == code_of(seq![0x4fu8, 0x50u8]),
        code@ == seq![0x4fu8, 0x50u8],
        code.text() == "OP"@,
{
    proof {
        reveal_strlit("OP");
        assert(ascii_chars(seq![0x4fu8, 0x50u8]) =~= "OP"@);
    }
    CurrencyCode::from_array([0x4f, 0x50])
}

/// The `PAB` currency code.
pub fn PAB() -> (code: CurrencyCode)
    ensures
        code == code_of(seq![0x50u8, 0x41u8, 0x42u8]),
        code@ == seq![0x50u8, 0x41u8, 0x42u8],
        code.text() == "PAB"@,
{
    proof {
        reveal_strlit("PAB");
        assert(ascii_chars(seq![0x50u8, 0x41u8, 0x42u8]) =~= "PAB"@);
    }
    CurrencyCode::from_array([0x50, 0x41, 0x42])
}

/// The `PEN` currency code.
pub fn PEN() -> (code: CurrencyCode)
    ensures
        code == code_of(seq![0x50u8, 0x45u8, 0x4eu8]),
        code@ == seq![0x50u8, 0x45u8, 0x4eu8],
        code.text() == "PEN"@,
{
    proof {
        reveal_strlit("PEN");
        assert(ascii_chars(seq![0x50u8, 0x45u8, 0x4eu8]) =~= "PEN"@);
    }
    CurrencyCode::from_array([0x50, 0x45, 0x4e])
}

/// The `PGK` currency code.
pub fn PGK() -> (code: CurrencyCode)
    ensures
        code == code_of(seq![0x50u8, 0x47u8, 0x4bu8]),
        code@ == seq![0x50u8, 0x47u8, 0x4bu8],
        code.text() == "PGK"@,
{
    proof {
        reveal_strlit("PGK");
        assert(ascii_chars(seq![0x50u8, 0x47u8, 0x4bu8]) =~= "PGK"@);
    }
    CurrencyCode::from_array([0x50, 0x47, 0x4b])
}

/// The `PHP` currency code.
pub fn PHP() -> (code: CurrencyCode)
    ensures
        code == code_of(seq![0x50u8, 0x48u8, 0x50u8]),
        code@ == seq![0x50u8, 0x48u8, 0x50u8],
        code.text() == "PHP"@,
{
    proof {
        reveal_strlit("PHP");
        assert(ascii_chars(seq![0x50u8, 0x48u8, 0x50u8]) =~= "PHP"@);
    }
    CurrencyCode::from_array([0x50, 0x48, 0x50])
}

/// The `PKR` currency code.
pub fn PKR() -> (code: CurrencyCode)
    ensures
        code == code_of(seq![0x50u8, 0x4bu8, 0x52u8]),
        code@ == seq![0x50u8, 0x4bu8, 0x52u8],
        code.text() == "PKR"@,
{
    proof {
        reveal_strlit("PKR");
        assert(ascii_chars(seq![0x50u8, 0x4bu8, 0x52u8]) =~= "PKR"@);
    }
    CurrencyCode::from_array([0x50, 0x4b, 0x52])
}

/// The `PLN` currency code.
pub fn PLN() -> (code: CurrencyCode)
    ensures
        code == code_of(seq![0x50u8, 0x4cu8, 0x4eu8]),
        code@ == seq![0x50u8, 0x4cu8, 0x4eu8],
        code.text() == "PLN"@,
{
    proof {
        reveal_strlit("PLN");
        assert(ascii_chars(seq![0x50u8, 0x4cu8, 0x4eu8]) =~= "PLN"@);
    }
    CurrencyCode::from_array([0x50, 0x4c, 0x4e])
}

/// The `PYG` currency code.
pub fn PYG() -> (code: CurrencyCode)
    ensures
        code == code_of(seq![0x50u8, 0x59u8, 0x47u8]),
        code@ == seq![0x50u8, 0x59u8, 0x47u8],
        code.text() == "PYG"@,
{
    proof {
        reveal_strlit("PYG");
        assert(ascii_chars(seq![0x50u8, 0x59u8, 0x47u8]) =~= "PYG"@);
    }
    CurrencyCode::from_array([0x50, 0x59, 0x47])
}

/// The `QAR` currency code.
pub fn QAR() -> (code: CurrencyCode)
    ensures
        code == code_of(seq![0x51u8, 0x41u8, 0x52u8]),
        code@ == seq![0x51u8, 0x41u8, 0x52u8],
        code.text() == "QAR"@,
{
    proof {
        reveal_strlit("QAR");
        assert(ascii_chars(seq![0x51u8, 0x41u8, 0x52u8]) =~= "QAR"@);
    }
    CurrencyCode::from_array([0x51, 0x41, 0x52])
}

/// The `RON` currency code.
pub fn RON() -> (code: CurrencyCode)
    ensures
        code == code_of(seq![0x52u8, 0x4fu8, 0x4eu8]),
        code@ == seq![0x52u8, 0x4fu8, 0x4eu8],
        code.text() == "RON"@,
{
    proof {
        reveal_strlit("RON");
        assert(ascii_chars(seq![0x52u8, 0x4fu8, 0x4eu8]) =~= "RON"@);
    }
    CurrencyCode::from_array([0x52, 0x4f, 0x4e])
}

/// The `RSD` currency code.
pub fn RSD() -> (code: CurrencyCode)
    ensures
        code == code_of(seq![0x52u8, 0x53u8, 0x44u8]),
        code@ == seq![0x52u8, 0x53u8, 0x44u8],
        code.text() == "RSD"@,
{
    proof {
        reveal_strlit("RSD");
        assert(ascii_chars(seq![0x52u8, 0x53u8, 0x44u8]) =~= "RSD"@);
    }
    CurrencyCode::from_array([0x52, 0x53, 0x44])
}

/// The `RUB` currency code.
pub fn RUB() -> (code: CurrencyCode)
    ensures
        code == code_of(seq![0x52u8, 0x55u8, 0x42u8]),
        code@ == seq![0x52u8, 0x55u8, 0x42u8],
        code.text() == "RUB"@,
{
    proof {
        reveal_strlit("RUB");
        assert(ascii_chars(seq![0x52u8, 0x55u8, 0x42u8]) =~= "RUB"@);
    }
    CurrencyCode::from_array([0x52, 0x55, 0x42])
}

/// The `RWF` currency code.
pub fn RWF() -> (code: CurrencyCode)
    ensures
        code == code_of(seq![0x52u8, 0x57u8, 0x46u8]),
        code@ == seq![0x52u8, 0x57u8, 0x46u8],
        code.text() == "RWF"@,
{
    proof {
        reveal_strlit("RWF");
        assert(ascii_chars(seq![0x52u8, 0x57u8, 0x46u8]) =~= "RWF"@);
    }
    CurrencyCode::from_array([0x52, 0x57, 0x46])
}

/// The `SAR` currency code.
pub fn SAR() -> (code: CurrencyCode)
    ensures
        code == code_of(seq![0x53u8, 0x41u8, 0x52u8]),
        code@ == seq![0x53u8, 0x41u8, 0x52u8],
        code.text() == "SAR"@,
{
    proof {
        reveal_strlit("SAR");
        assert(ascii_chars(seq![0x53u8, 0x41u8, 0x52u8]) =~= "SAR"@);
    }
    CurrencyCode::from_array([0x53, 0x41, 0x52])
}

/// The `SBD` currency code.
pub fn SBD() -> (code: CurrencyCode)
    ensures
        code == code_of(seq![0x53u8, 0x42u8, 0x44u8]),
        code@ == seq![0x53u8, 0x42u8, 0x44u8],
        code.text() == "SBD"@,
{
    proof {
        reveal_strlit("SBD");
        assert(ascii_chars(seq![0x53u8, 0x42u8, 0x44u8]) =~= "SBD"@);
    }
    CurrencyCode::from_array([0x53, 0x42, 0x44])
}

/// The `SCR` currency code.
pub fn SCR() -> (code: CurrencyCode)
    ensures
        code == code_of(seq![0x53u8, 0x43u8, 0x52u8]),
        code@ == seq![0x53u8, 0x43u8, 0x52u8],
        code.text() == "SCR"@,
{
    proof {
        reveal_strlit("SCR");
        assert(ascii_chars(seq![0x53u8, 0x43u8, 0x52u8]) =~= "SCR"@);
    }
    CurrencyCode::from_array([0x53, 0x43, 0x52])
}

/// The `SDG` currency code.
pub fn SDG() -> (code: CurrencyCode)
    ensures
        code == code_of(seq![0x53u8, 0x44u8, 0x47u8]),
        code@ == seq![0x53u8, 0x44u8, 0x47u8],
        code.text() == "SDG"@,
{
    proof {
        reveal_strlit("SDG");
        assert(ascii_chars(seq![0x53u8, 0x44u8, 0x47u8]) =~= "SDG"@);
    }
    CurrencyCode::from_array([0x53, 0x44, 0x47])
}

/// The `SEK` currency code.
pub fn SEK() -> (code: CurrencyCode)
    ensures
        code == code_of(seq![0x53u8, 0x45u8, 0x4bu8]),
        code@ == seq![0x53u8, 0x45u8, 0x4bu8],
        code.text() == "SEK"@,
{
    proof {
        reveal_strlit("SEK");
        assert(ascii_chars(seq![0x53u8, 0x45u8, 0x4bu8]) =~= "SEK"@);
    }
    CurrencyCode::from_array([0x53, 0x45, 0x4b])
}

/// The `SGD` currency code.
pub fn SGD() -> (code: CurrencyCode)
    ensures
        code == code_of(seq![0x53u8, 0x47u8, 0x44u8]),
        code@ == seq![0x53u8, 0x47u8, 0x44u8],
        code.text() == "SGD"@,
{
    proof {
        reveal_strlit("SGD");
        assert(ascii_chars(seq![0x53u8, 0x47u8, 0x44u8]) =~= "SGD"@);
    }
    CurrencyCode::from_array([0x53, 0x47, 0x44])
}

/// The `SHP` currency code.
pub fn SHP() -> (code: CurrencyCode)
    ensures
        code == code_of(seq![0x53u8, 0x48u8, 0x50u8]),
        code@ == seq![0x53u8, 0x48u8, 0x50u8],
        code.text() == "SHP"@,
{
    proof {
        reveal_strlit("SHP");
        assert(ascii_chars(seq![0x53u8, 0x48u8, 0x50u8]) =~= "SHP"@);
    }
    CurrencyCode::from_array([0x53, 0x48, 0x50])
}

/// The `SLL` currency code.
pub fn SLL() -> (code: CurrencyCode)
    ensures
        code == code_of(seq![0x53u8, 0x4cu8, 0x4cu8]),
        code@ == seq![0x53u8, 0x4cu8, 0x4cu8],
        code.text() == "SLL"@,
{
    proof {
        reveal_strlit("SLL");
        assert(ascii_chars(seq![0x53u8, 0x4cu8, 0x4cu8]) =~= "SLL"@);
    }
    CurrencyCode::from_array([0x53, 0x4c, 0x4c])
}

/// The `SOL` currency code.
pub fn SOL() -> (code: CurrencyCode)
    ensures
        code == code_of(seq![0x53u8, 0x4fu8, 0x4cu8]),
        code@ == seq![0x53u8, 0x4fu8, 0x4cu8],
        code.text() == "SOL"@,
{
    proof {
        reveal_strlit("SOL");
        assert(ascii_chars(seq![0x53u8, 0x4fu8, 0x4cu8]) =~= "SOL"@);
    }
    CurrencyCode::from_array([0x53, 0x4f, 0x4c])
}

/// The `SOS` currency code.
pub fn SOS() -> (code: CurrencyCode)
    ensures
        code == code_of(seq![0x53u8, 0x4fu8, 0x53u8]),
        code@ == seq![0x53u8, 0x4fu8, 0x53u8],
        code.text() == "SOS"@,
{
    proof {
        reveal_strlit("SOS");
        assert(ascii_chars(seq![0x53u8, 0x4fu8, 0x53u8]) =~= "SOS"@);
    }
    CurrencyCode::from_array([0x53, 0x4f, 0x53])
}

/// The `SRD` currency code.
pub fn SRD() -> (code: CurrencyCode)
    ensures
        code == code_of(seq![0x53u8, 0x52u8, 0x44u8]),
        code@ == seq![0x53u8, 0x52u8, 0x44u8],
        code.text() == "SRD"@,
{
    proof {
        reveal_strlit("SRD");
        assert(ascii_chars(seq![0x53u8, 0x52u8, 0x44u8]) =~= "SRD"@);
    }
    CurrencyCode::from_array([0x53, 0x52, 0x44])
}

/// The `STD` currency code.
pub fn STD() -> (code: CurrencyCode)
    ensures
        code == code_of(seq![0x53u8, 0x54u8, 0x44u8]),
        code@ == seq![0x53u8, 0x54u8, 0x44u8],
        code.text() == "STD"@,
{
    proof {
        reveal_strlit("STD");
        assert(ascii_chars(seq![0x53u8, 0x54u8, 0x44u8]) =~= "STD"@);
    }
    CurrencyCode::from_array([0x53, 0x54, 0x44])
}

/// The `SVC` currency code.
pub fn SVC() -> (code: CurrencyCode)
    ensures
        code == code_of(seq![0x53u8, 0x56u8, 0x43u8]),
        code@ == seq![0x53u8, 0x56u8, 0x43u8],
        code.text() == "SVC"@,
{
    proof {
        reveal_strlit("SVC");
        assert(ascii_chars(seq![0x53u8, 0x56u8, 0x43u8]) =~= "SVC"@);
    }
    CurrencyCode::from_array([0x53, 0x56, 0x43])
}

/// The `SYP` currency code.
pub fn SYP() -> (code: CurrencyCode)
    ensures
        code == code_of(seq![0x53u8, 0x59u8, 0x50u8]),
        code@ == seq![0x53u8, 0x59u8, 0x50u8],
        code.text() == "SYP"@,
{
    proof {
        reveal_strlit("SYP");
        assert(ascii_chars(seq![0x53u8, 0x59u8, 0x50u8]) =~= "SYP"@);
    }
    CurrencyCode::from_array([0x53, 0x59, 0x50])
}

/// The `SZL` currency code.
pub fn SZL() -> (code: CurrencyCode)
    ensures
        code == code_of(seq![0x53u8, 0x5au8, 0x4cu8]),
        code@ == seq![0x53u8, 0x5au8, 0x4cu8],
        code.text() == "SZL"@,
{
    proof {
        reveal_strlit("SZL");
        assert(ascii_chars(seq![0x53u8, 0x5au8, 0x4cu8]) =~= "SZL"@);
    }
    CurrencyCode::from_array([0x53, 0x5a, 0x4c])
}

/// The `THB` currency code.
pub fn THB() -> (code: CurrencyCode)
    ensures
        code == code_of(seq![0x54u8, 0x48u8, 0x42u8]),
        code@ == seq![0x54u8, 0x48u8, 0x42u8],
        code.text() == "THB"@,
{
    proof {
        reveal_strlit("THB");
        assert(ascii_chars(seq![0x54u8, 0x48u8, 0x42u8]) =~= "THB"@);
    }
    CurrencyCode::from_array([0x54, 0x48, 0x42])
}

/// The `TJS` currency code.
pub fn TJS() -> (code: CurrencyCode)
    ensures
        code == code_of(seq![0x54u8, 0x4au8, 0x53u8]),
        code@ == seq![0x54u8, 0x4au8, 0x53u8],
        code.text() == "TJS"@,
{
    proof {
        reveal_strlit("TJS");
        assert(ascii_chars(seq![0x54u8, 0x4au8, 0x53u8]) =~= "TJS"@);
    }
    CurrencyCode::from_array([0x54, 0x4a, 0x53])
}

/// The `TMT` currency code.
pub fn TMT() -> (code: CurrencyCode)
    ensures
        code == code_of(seq![0x54u8, 0x4du8, 0x54u8]),
        code@ == seq![0x54u8, 0x4du8, 0x54u8],
        code.text() == "TMT"@,
{
    proof {
        reveal_strlit("TMT");
        assert(ascii_chars(seq![0x54u8, 0x4du8, 0x54u8]) =~= "TMT"@);
    }
    CurrencyCode::from_array([0x54, 0x4d, 0x54])
}

/// The `TND` currency code.
pub fn TND() -> (code: CurrencyCode)
    ensures
        code == code_of(seq![0x54u8, 0x4eu8, 0x44u8]),
        code@ == seq![0x54u8, 0x4eu8, 0x44u8],
        code.text() == "TND"@,
{
    proof {
        reveal_strlit("TND");
        assert(ascii_chars(seq![0x54u8, 0x4eu8, 0x44u8]) =~= "TND"@);
    }
    CurrencyCode::from_array([0x54, 0x4e, 0x44])
}

/// The `TOP` currency code.
pub fn TOP() -> (code: CurrencyCode)
    ensures
        code == code_of(seq![0x54u8, 0x4fu8, 0x50u8]),
        code@ == seq![0x54u8, 0x4fu8, 0x50u8],
        code.text() == "TOP"@,
{
    proof {
        reveal_strlit("TOP");
        assert(ascii_chars(seq![0x54u8, 0x4fu8, 0x50u8]) =~= "TOP"@);
    }
    CurrencyCode::from_array([0x54, 0x4f, 0x50])
}

/// The `TRY` currency code.
pub fn TRY() -> (code: CurrencyCode)
    ensures
        code == code_of(seq![0x54u8, 0x52u8, 0x59u8]),
        code@ == seq![0x54u8, 0x52u8, 0x59u8],
        code.text() == "TRY"@,
{
    proof {
        reveal_strlit("TRY");
        assert(ascii_chars(seq![0x54u8, 0x52u8, 0x59u8]) =~= "TRY"@);
    }
    CurrencyCode::from_array([0x54, 0x52, 0x59])
}

/// The `TTD` currency code.
pub fn TTD() -> (code: CurrencyCode)
    ensures
        code == code_of(seq![0x54u8, 0x54u8, 0x44u8]),
        code@ == seq![0x54u8, 0x54u8, 0x44u8],
        code.text() == "TTD"@,
{
    proof {
        reveal_strlit("TTD");
        assert(ascii_chars(seq![0x54u8, 0x54u8, 0x44u8]) =~= "TTD"@);
    }
    CurrencyCode::from_array([0x54, 0x54, 0x44])
}

/// The `TWD` currency code.
pub fn TWD() -> (code: CurrencyCode)
    ensures
        code == code_of(seq![0x54u8, 0x57u8, 0x44u8]),
        code@ == seq![0x54u8, 0x57u8, 0x44u8],
        code.text() == "TWD"@,
{
    proof {
        reveal_strlit("TWD");
        assert(ascii_chars(seq![0x54u8, 0x57u8, 0x44u8]) =~= "TWD"@);
    }
    CurrencyCode::from_array([0x54, 0x57, 0x44])
}

/// The `TZS` currency code.
pub fn TZS() -> (code: CurrencyCode)
    ensures
        code == code_of(seq![0x54u8, 0x5au8, 0x53u8]),
        code@ == seq![0x54u8, 0x5au8, 0x53u8],
        code.text() == "TZS"@,
{
    proof {
        reveal_strlit("TZS");
        assert(ascii_chars(seq![0x54u8, 0x5au8, 0x53u8]) =~= "TZS"@);
    }
    CurrencyCode::from_array([0x54, 0x5a, 0x53])
}

/// The `UAH` currency code.
pub fn UAH() -> (code: CurrencyCode)
    ensures
        code == code_of(seq![0x55u8, 0x41u8, 0x48u8]),
        code@ == seq![0x55u8, 0x41u8, 0x48u8],
        code.text() == "UAH"@,
{
    proof {
        reveal_strlit("UAH");
        assert(ascii_chars(seq![0x55u8, 0x41u8, 0x48u8]) =~= "UAH"@);
    }
    CurrencyCode::from_array([0x55, 0x41, 0x48])
}

/// The `UGX` currency code.
pub fn UGX() -> (code: CurrencyCode)
    ensures
        code == code_of(seq![0x55u8, 0x47u8, 0x58u8]),
        code@ == seq![0x55u8, 0x47u8, 0x58u8],
        code.text() == "UGX"@,
{
    proof {
        reveal_strlit("UGX");
        assert(ascii_chars(seq![0x55u8, 0x47u8, 0x58u8]) =~= "UGX"@);
    }
    CurrencyCode::from_array([0x55, 0x47, 0x58])
}

/// The `USD` currency code.
pub fn USD() -> (code: CurrencyCode)
    ensures
        code == code_of(seq![0x55u8, 0x53u8, 0x44u8]),
        code@ == seq![0x55u8, 0x53u8, 0x44u8],
        code.text() == "USD"@,
{
    proof {
        reveal_strlit("USD");
        assert(ascii_chars(seq![0x55u8, 0x53u8, 0x44u8]) =~= "USD"@);
    }
    CurrencyCode::from_array([0x55, 0x53, 0x44])
}

/// The `USDC` currency code.
pub fn USDC() -> (code: CurrencyCode)
    ensures
        code == code_of(seq![0x55u8, 0x53u8, 0x44u8, 0x43u8]),
        code@ == seq![0x55u8, 0x53u8, 0x44u8, 0x43u8],
        code.text() == "USDC"@,
{
    proof {
        reveal_strlit("USDC");
        assert(ascii_chars(seq![0x55u8, 0x53u8, 0x44u8, 0x43u8]) =~= "USDC"@);
    }
    CurrencyCode::from_array([0x55, 0x53, 0x44, 0x43])
}

/// The `USDT` currency code.
pub fn USDT() -> (code: CurrencyCode)
    ensures
        code == code_of(seq![0x55u8, 0x53u8, 0x44u8, 0x54u8]),
        code@ == seq![0x55u8, 0x53u8, 0x44u8, 0x54u8],
        code.text() == "USDT"@,
{
    proof {
        reveal_strlit("USDT");
        assert(ascii_chars(seq![0x55u8, 0x53u8, 0x44u8, 0x54u8]) =~= "USDT"@);
    }
    CurrencyCode::from_array([0x55, 0x53, 0x44, 0x54])
}

/// The `UYU` currency code.
pub fn UYU() -> (code: CurrencyCode)
    ensures
        code == code_of(seq![0x55u8, 0x59u8, 0x55u8]),
        code@ == seq![0x55u8, 0x59u8, 0x55u8],
        code.text() == "UYU"@,
{
    proof {
        reveal_strlit("UYU");
        assert(ascii_chars(seq![0x55u8, 0x59u8, 0x55u8]) =~= "UYU"@);
    }
    CurrencyCode::from_array([0x55, 0x59, 0x55])
}

/// The `UZS` currency code.
pub fn UZS() -> (code: CurrencyCode)
    ensures
        code == code_of(seq![0x55u8, 0x5au8, 0x53u8]),
        code@ == seq![0x55u8, 0x5au8, 0x53u8],
        code.text() == "UZS"@,
{
    proof {
        reveal_strlit("UZS");
        assert(ascii_chars(seq![0x55u8, 0x5au8, 0x53u8]) =~= "UZS"@);
    }
    CurrencyCode::from_array([0x55, 0x5a, 0x53])
}

/// The `VEF` currency code.
pub fn VEF() -> (code: CurrencyCode)
    ensures
        code == code_of(seq![0x56u8, 0x45u8, 0x46u8]),
        code@ == seq![0x56u8, 0x45u8, 0x46u8],
        code.text() == "VEF"@,
{
    proof {
        reveal_strlit("VEF");
        assert(ascii_chars(seq![0x56u8, 0x45u8, 0x46u8]) =~= "VEF"@);
    }
    CurrencyCode::from_array([0x56, 0x45, 0x46])
}

/// The `VND` currency code.
pub fn VND() -> (code: CurrencyCode)
    ensures
        code == code_of(seq![0x56u8, 0x4eu8, 0x44u8]),
        code@ == seq![0x56u8, 0x4eu8, 0x44u8],
        code.text() == "VND"@,
{
    proof {
        reveal_strlit("VND");
        assert(ascii_chars(seq![0x56u8, 0x4eu8, 0x44u8]) =~= "VND"@);
    }
    CurrencyCode::from_array([0x56, 0x4e, 0x44])
}

/// The `VUV` currency code.
pub fn VUV() -> (code: CurrencyCode)
    ensures
        code == code_of(seq![0x56u8, 0x55u8, 0x56u8]),
        code@ == seq![0x56u8, 0x55u8, 0x56u8],
        code.text() == "VUV"@,
{
    proof {
        reveal_strlit("VUV");
        assert(ascii_chars(seq![0x56u8, 0x55u8, 0x56u8]) =~= "VUV"@);
    }
    CurrencyCode::from_array([0x56, 0x55, 0x56])
}

/// The `WST` currency code.
pub fn WST() -> (code: CurrencyCode)
    ensures
        code == code_of(seq![0x57u8, 0x53u8, 0x54u8]),
        code@ == seq![0x57u8, 0x53u8, 0x54u8],
        code.text() == "WST"@,
{
    proof {
        reveal_strlit("WST");
        assert(ascii_chars(seq![0x57u8, 0x53u8, 0x54u8]) =~= "WST"@);
    }
    CurrencyCode::from_array([0x57, 0x53, 0x54])
}

/// The `XAF` currency code.
pub fn XAF() -> (code: CurrencyCode)
    ensures
        code == code_of(seq![0x58u8, 0x41u8, 0x46u8]),
        code@ == seq![0x58u8, 0x41u8, 0x46u8],
        code.text() == "XAF"@,
{
    proof {
        reveal_strlit("XAF");
        assert(ascii_chars(seq![0x58u8, 0x41u8, 0x46u8]) =~= "XAF"@);
    }
    CurrencyCode::from_array([0x58, 0x41, 0x46])
}

/// The `XAG` currency code.
pub fn XAG() -> (code: CurrencyCode)
    ensures
        code == code_of(seq![0x58u8, 0x41u8, 0x47u8]),
        code@ == seq![0x58u8, 0x41u8, 0x47u8],
        code.text() == "XAG"@,
{
    proof {
        reveal_strlit("XAG");
        assert(ascii_chars(seq![0x58u8, 0x41u8, 0x47u8]) =~= "XAG"@);
    }
    CurrencyCode::from_array([0x58, 0x41, 0x47])
}

/// The `XAU` currency code.
pub fn XAU() -> (code: CurrencyCode)
    ensures
        code == code_of(seq![0x58u8, 0x41u8, 0x55u8]),
        code@ == seq![0x58u8, 0x41u8, 0x55u8],
        code.text() == "XAU"@,
{
    proof {
        reveal_strlit("XAU");
        assert(ascii_chars(seq![0x58u8, 0x41u8, 0x55u8]) =~= "XAU"@);
    }
    CurrencyCode::from_array([0x58, 0x41, 0x55])
}

/// The `XCD` currency code.
pub fn XCD() -> (code: CurrencyCode)
    ensures
        code == code_of(seq![0x58u8, 0x43u8, 0x44u8]),
        code@ == seq![0x58u8, 0x43u8, 0x44u8],
        code.text() == "XCD"@,
{
    proof {
        reveal_strlit("XCD");
        assert(ascii_chars(seq![0x58u8, 0x43u8, 0x44u8]) =~= "XCD"@);
    }
    CurrencyCode::from_array([0x58, 0x43, 0x44])
}

/// The `XDR` currency code.
pub fn XDR() -> (code: CurrencyCode)
    ensures
        code == code_of(seq![0x58u8, 0x44u8, 0x52u8]),
        code@ == seq![0x58u8, 0x44u8, 0x52u8],
        code.text() == "XDR"@,
{
    proof {
        reveal_strlit("XDR");
        assert(ascii_chars(seq![0x58u8, 0x44u8, 0x52u8]) =~= "XDR"@);
    }
    CurrencyCode::from_array([0x58, 0x44, 0x52])
}

/// The `XOF` currency code.
pub fn XOF() -> (code: CurrencyCode)
    ensures
        code == code_of(seq![0x58u8, 0x4fu8, 0x46u8]),
        code@ == seq![0x58u8, 0x4fu8, 0x46u8],
        code.text() == "XOF"@,
{
    proof {
        reveal_strlit("XOF");
        assert(ascii_chars(seq![0x58u8, 0x4fu8, 0x46u8]) =~= "XOF"@);
    }
    CurrencyCode::from_array([0x58, 0x4f, 0x46])
}

/// The `XPD` currency code.
pub fn XPD() -> (code: CurrencyCode)
    ensures
        code == code_of(seq![0x58u8, 0x50u8, 0x44u8]),
        code@ == seq![0x58u8, 0x50u8, 0x44u8],
        code.text() == "XPD"@,
{
    proof {
        reveal_strlit("XPD");
        assert(ascii_chars(seq![0x58u8, 0x50u8, 0x44u8]) =~= "XPD"@);
    }
    CurrencyCode::from_array([0x58, 0x50, 0x44])
}

/// The `XPF` currency code.
pub fn XPF() -> (code: CurrencyCode)
    ensures
        code == code_of(seq![0x58u8, 0x50u8, 0x46u8]),
        code@ == seq![0x58u8, 0x50u8, 0x46u8],
        code.text() == "XPF"@,
{
    proof {
        reveal_strlit("XPF");
        assert(ascii_chars(seq![0x58u8, 0x50u8, 0x46u8]) =~= "XPF"@);
    }
    CurrencyCode::from_array([0x58, 0x50, 0x46])
}

/// The `XPT` currency code.
pub fn XPT() -> (code: CurrencyCode)
    ensures
        code == code_of(seq![0x58u8, 0x50u8, 0x54u8]),
        code@ == seq![0x58u8, 0x50u8, 0x54u8],
        code.text() == "XPT"@,
{
    proof {
        reveal_strlit("XPT");
        assert(ascii_chars(seq![0x58u8, 0x50u8, 0x54u8]) =~= "XPT"@);
    }
    CurrencyCode::from_array([0x58, 0x50, 0x54])
}

/// The `XRP` currency code.
pub fn XRP() -> (code: CurrencyCode)
    ensures
        code == code_of(seq![0x58u8, 0x52u8, 0x50u8]),
        code@ == seq![0x58u8, 0x52u8, 0x50u8],
        code.text() == "XRP"@,
{
    proof {
        reveal_strlit("XRP");
        assert(ascii_chars(seq![0x58u8, 0x52u8, 0x50u8]) =~= "XRP"@);
    }
    CurrencyCode::from_array([0x58, 0x52, 0x50])
}

/// The `YER` currency code.
pub fn YER() -> (code: CurrencyCode)
    ensures
        code == code_of(seq![0x59u8, 0x45u8, 0x52u8]),
        code@ == seq![0x59u8, 0x45u8, 0x52u8],
        code.text() == "YER"@,
{
    proof {
        reveal_strlit("YER");
        assert(ascii_chars(seq![0x59u8, 0x45u8, 0x52u8]) =~= "YER"@);
    }
    CurrencyCode::from_array([0x59, 0x45, 0x52])
}

/// The `ZAR` currency code.
pub fn ZAR() -> (code: CurrencyCode)
    ensures
        code == code_of(seq![0x5au8, 0x41u8, 0x52u8]),
        code@ == seq![0x5au8, 0x41u8, 0x52u8],
        code.text() == "ZAR"@,
{
    proof {
        reveal_strlit("ZAR");
        assert(ascii_chars(seq![0x5au8, 0x41u8, 0x52u8]) =~= "ZAR"@);
    }
    CurrencyCode::from_array([0x5a, 0x41, 0x52])
}

/// The `ZMK` currency code.
pub fn ZMK() -> (code: CurrencyCode)
    ensures
        code == code_of(seq![0x5au8, 0x4du8, 0x4bu8]),
        code@ == seq![0x5au8, 0x4du8, 0x4bu8],
        code.text() == "ZMK"@,
{
    proof {
        reveal_strlit("ZMK");
        assert(ascii_chars(seq![0x5au8, 0x4du8, 0x4bu8]) =~= "ZMK"@);
    }
    CurrencyCode::from_array([0x5a, 0x4d, 0x4b])
}

/// The `ZMW` currency code.
pub fn ZMW() -> (code: CurrencyCode)
    ensures
        code == code_of(seq![0x5au8, 0x4du8, 0x57u8]),
        code@ == seq![0x5au8, 0x4du8, 0x57u8],
        code.text() == "ZMW"@,
{
    proof {
        reveal_strlit("ZMW");
        assert(ascii_chars(seq![0x5au8, 0x4du8, 0x57u8]) =~= "ZMW"@);
    }
    CurrencyCode::from_array([0x5a, 0x4d, 0x57])
}

/// The `ZWL` currency code.
pub fn ZWL() -> (code: CurrencyCode)
    ensures
        code == code_of(seq![0x5au8, 0x57u8, 0x4cu8]),
        code@ == seq![0x5au8, 0x57u8, 0x4cu8],
        code.text() == "ZWL"@,
{
    proof {
        reveal_strlit("ZWL");
        assert(ascii_chars(seq![0x5au8, 0x57u8, 0x4cu8]) =~= "ZWL"@);
    }
    CurrencyCode::from_array([0x5a, 0x57, 0x4c])
}

/// The known currencies from `ADA` to `AUD`.
#[verifier::opaque]
pub open spec fn known_ada_to_aud() -> Seq<CurrencyCode> {
    seq![
        code_of(seq![0x41u8, 0x44u8, 0x41u8]),
        code_of(seq![0x41u8, 0x45u8, 0x44u8]),
        code_of(seq![0x41u8, 0x46u8, 0x4eu8]),
        code_of(seq![0x41u8, 0x4cu8, 0x4cu8]),
        code_of(seq![0x41u8, 0x4du8, 0x44u8]),
        code_of(seq![0x41u8, 0x4eu8, 0x47u8]),
        code_of(seq![0x41u8, 0x4fu8, 0x41u8]),
        code_of(seq![0x41u8, 0x52u8, 0x42u8]),
        code_of(seq![0x41u8, 0x52u8, 0x53u8]),
        code_of(seq![0x41u8, 0x55u8, 0x44u8]),
    ]
}

/// The known currencies from `AVAX` to `BMD`.
#[verifier::opaque]
pub open spec fn known_avax_to_bmd() -> Seq<CurrencyCode> {
    seq![
        code_of(seq![0x41u8, 0x56u8, 0x41u8, 0x58u8]),
        code_of(seq![0x41u8, 0x57u8, 0x47u8]),
        code_of(seq![0x41u8, 0x5au8, 0x4eu8]),
        code_of(seq![0x42u8, 0x41u8, 0x4du8]),
        code_of(seq![0x42u8, 0x42u8, 0x44u8]),
        code_of(seq![0x42u8, 0x44u8, 0x54u8]),
        code_of(seq![0x42u8, 0x47u8, 0x4eu8]),
        code_of(seq![0x42u8, 0x48u8, 0x44u8]),
        code_of(seq![0x42u8, 0x49u8, 0x46u8]),
        code_of(seq![0x42u8, 0x4du8, 0x44u8]),
    ]
}

/// The known currencies from `BNB` to `BYN`.
#[verifier::opaque]
pub open spec fn known_bnb_to_byn() -> Seq<CurrencyCode> {
    seq![
        code_of(seq![0x42u8, 0x4eu8, 0x42u8]),
        code_of(seq![0x42u8, 0x4eu8, 0x44u8]),
        code_of(seq![0x42u8, 0x4fu8, 0x42u8]),
        code_of(seq![0x42u8, 0x52u8, 0x4cu8]),
        code_of(seq![0x42u8, 0x53u8, 0x44u8]),
        code_of(seq![0x42u8, 0x54u8, 0x43u8]),
        code_of(seq![0x42u8, 0x54u8, 0x4eu8]),
        code_of(seq![0x42u8, 0x55u8, 0x53u8, 0x44u8]),
        code_of(seq![0x42u8, 0x57u8, 0x50u8]),
        code_of(seq![0x42u8, 0x59u8, 0x4eu8]),
    ]
}

/// The known currencies from `BYR` to `CRC`.
#[verifier::opaque]
pub open spec fn known_byr_to_crc() -> Seq<CurrencyCode> {
    seq![
        code_of(seq![0x42u8, 0x59u8, 0x52u8]),
        code_of(seq![0x42u8, 0x5au8, 0x44u8]),
        code_of(seq![0x43u8, 0x41u8, 0x44u8]),
        code_of(seq![0x43u8, 0x44u8, 0x46u8]),
        code_of(seq![0x43u8, 0x48u8, 0x46u8]),
        code_of(seq![0x43u8, 0x4cu8, 0x46u8]),
        code_of(seq![0x43u8, 0x4cu8, 0x50u8]),
        code_of(seq![0x43u8, 0x4eu8, 0x59u8]),
        code_of(seq![0x43u8, 0x4fu8, 0x50u8]),
        code_of(seq![0x43u8, 0x52u8, 0x43u8]),
    ]
}

/// The known currencies from `CUC` to `DZD`.
#[verifier::opaque]
pub open spec fn known_cuc_to_dzd() -> Seq<CurrencyCode> {
    seq![
        code_of(seq![0x43u8, 0x55u8, 0x43u8]),
        code_of(seq![0x43u8, 0x55u8, 0x50u8]),
        code_of(seq![0x43u8, 0x56u8, 0x45u8]),
        code_of(seq![0x43u8, 0x5au8, 0x4bu8]),
        code_of(seq![0x44u8, 0x41u8, 0x49u8]),
        code_of(seq![0x44u8, 0x4au8, 0x46u8]),
        code_of(seq![0x44u8, 0x4bu8, 0x4bu8]),
        code_of(seq![0x44u8, 0x4fu8, 0x50u8]),
        code_of(seq![0x44u8, 0x4fu8, 0x54u8]),
        code_of(seq![0x44u8, 0x5au8, 0x44u8]),
    ]
}

/// The known currencies from `EGP` to `GGP`.
#[verifier::opaque]
pub open spec fn known_egp_to_ggp() -> Seq<CurrencyCode> {
    seq![
        code_of(seq![0x45u8, 0x47u8, 0x50u8]),
        code_of(seq![0x45u8, 0x52u8, 0x4eu8]),
        code_of(seq![0x45u8, 0x54u8, 0x42u8]),
        code_of(seq![0x45u8, 0x54u8, 0x48u8]),
        code_of(seq![0x45u8, 0x55u8, 0x52u8]),
        code_of(seq![0x46u8, 0x4au8, 0x44u8]),
        code_of(seq![0x46u8, 0x4bu8, 0x50u8]),
        code_of(seq![0x47u8, 0x42u8, 0x50u8]),
        code_of(seq![0x47u8, 0x45u8, 0x4cu8]),
        code_of(seq![0x47u8, 0x47u8, 0x50u8]),
    ]
}

/// The known currencies from `GHS` to `HTG`.
#[verifier::opaque]
pub open spec fn known_ghs_to_htg() -> Seq<CurrencyCode> {
    seq![
        code_of(seq![0x47u8, 0x48u8, 0x53u8]),
        code_of(seq![0x47u8, 0x49u8, 0x50u8]),
        code_of(seq![0x47u8, 0x4du8, 0x44u8]),
        code_of(seq![0x47u8, 0x4eu8, 0x46u8]),
        code_of(seq![0x47u8, 0x54u8, 0x51u8]),
        code_of(seq![0x47u8, 0x59u8, 0x44u8]),
        code_of(seq![0x48u8, 0x4bu8, 0x44u8]),
        code_of(seq![0x48u8, 0x4eu8, 0x4cu8]),
        code_of(seq![0x48u8, 0x52u8, 0x4bu8]),
        code_of(seq![0x48u8, 0x54u8, 0x47u8]),
    ]
}

/// The known currencies from `HUF` to `JMD`.
#[verifier::opaque]
pub open spec fn known_huf_to_jmd() -> Seq<CurrencyCode> {
    seq![
        code_of(seq![0x48u8, 0x55u8, 0x46u8]),
        code_of(seq![0x49u8, 0x44u8, 0x52u8]),
        code_of(seq![0x49u8, 0x4cu8, 0x53u8]),
        code_of(seq![0x49u8, 0x4du8, 0x50u8]),
        code_of(seq![0x49u8, 0x4eu8, 0x52u8]),
        code_of(seq![0x49u8, 0x51u8, 0x44u8]),
        code_of(seq![0x49u8, 0x52u8, 0x52u8]),
        code_of(seq![0x49u8, 0x53u8, 0x4bu8]),
        code_of(seq![0x4au8, 0x45u8, 0x50u8]),
        code_of(seq![0x4au8, 0x4du8, 0x44u8]),
    ]
}

/// The known currencies from `JOD` to `KYD`.
#[verifier::opaque]
pub open spec fn known_jod_to_kyd() -> Seq<CurrencyCode> {
    seq![
        code_of(seq![0x4au8, 0x4fu8, 0x44u8]),
        code_of(seq![0x4au8, 0x50u8, 0x59u8]),
        code_of(seq![0x4bu8, 0x45u8, 0x53u8]),
        code_of(seq![0x4bu8, 0x47u8, 0x53u8]),
        code_of(seq![0x4bu8, 0x48u8, 0x52u8]),
        code_of(seq![0x4bu8, 0x4du8, 0x46u8]),
        code_of(seq![0x4bu8, 0x50u8, 0x57u8]),
        code_of(seq![0x4bu8, 0x52u8, 0x57u8]),
        code_of(seq![0x4bu8, 0x57u8, 0x44u8]),
        code_of(seq![0x4bu8, 0x59u8, 0x44u8]),
    ]
}

/// The known currencies from `KZT` to `LYD`.
#[verifier::opaque]
pub open spec fn known_kzt_to_lyd() -> Seq<CurrencyCode> {
    seq![
        code_of(seq![0x4bu8, 0x5au8, 0x54u8]),
        code_of(seq![0x4cu8, 0x41u8, 0x4bu8]),
        code_of(seq![0x4cu8, 0x42u8, 0x50u8]),
        code_of(seq![0x4cu8, 0x4bu8, 0x52u8]),
        code_of(seq![0x4cu8, 0x52u8, 0x44u8]),
        code_of(seq![0x4cu8, 0x53u8, 0x4cu8]),
        code_of(seq![0x4cu8, 0x54u8, 0x43u8]),
        code_of(seq![0x4cu8, 0x54u8, 0x4cu8]),
        code_of(seq![0x4cu8, 0x56u8, 0x4cu8]),
        code_of(seq![0x4cu8, 0x59u8, 0x44u8]),
    ]
}

/// The known currencies from `MAD` to `MUR`.
#[verifier::opaque]
pub open spec fn known_mad_to_mur() -> Seq<CurrencyCode> {
    seq![
        code_of(seq![0x4du8, 0x41u8, 0x44u8]),
        code_of(seq![0x4du8, 0x41u8, 0x54u8, 0x49u8, 0x43u8]),
        code_of(seq![0x4du8, 0x44u8, 0x4cu8]),
        code_of(seq![0x4du8, 0x47u8, 0x41u8]),
        code_of(seq![0x4du8, 0x4bu8, 0x44u8]),
        code_of(seq![0x4du8, 0x4du8, 0x4bu8]),
        code_of(seq![0x4du8, 0x4eu8, 0x54u8]),
        code_of(seq![0x4du8, 0x4fu8, 0x50u8]),
        code_of(seq![0x4du8, 0x52u8, 0x4fu8]),
        code_of(seq![0x4du8, 0x55u8, 0x52u8]),
    ]
}

/// The known currencies from `MVR` to `NPR`.
#[verifier::opaque]
pub open spec fn known_mvr_to_npr() -> Seq<CurrencyCode> {
    seq![
        code_of(seq![0x4du8, 0x56u8, 0x52u8]),
        code_of(seq![0x4du8, 0x57u8, 0x4bu8]),
        code_of(seq![0x4du8, 0x58u8, 0x4eu8]),
        code_of(seq![0x4du8, 0x59u8, 0x52u8]),
        code_of(seq![0x4du8, 0x5au8, 0x4eu8]),
        code_of(seq![0x4eu8, 0x41u8, 0x44u8]),
        code_of(seq![0x4eu8, 0x47u8, 0x4eu8]),
        code_of(seq![0x4eu8, 0x49u8, 0x4fu8]),
        code_of(seq![0x4eu8, 0x4fu8, 0x4bu8]),
        code_of(seq![0x4eu8, 0x50u8, 0x52u8]),
    ]
}

/// The known currencies from `NZD` to `PYG`.
#[verifier::opaque]
pub open spec fn known_nzd_to_pyg() -> Seq<CurrencyCode> {
    seq![
        code_of(seq![0x4eu8, 0x5au8, 0x44u8]),
        code_of(seq![0x4fu8, 0x4du8, 0x52u8]),
        code_of(seq![0x4fu8, 0x50u8]),
        code_of(seq![0x50u8, 0x41u8, 0x42u8]),
        code_of(seq![0x50u8, 0x45u8, 0x4eu8]),
        code_of(seq![0x50u8, 0x47u8, 0x4bu8]),
        code_of(seq![0x50u8, 0x48u8, 0x50u8]),
        code_of(seq![0x50u8, 0x4bu8, 0x52u8]),
        code_of(seq![0x50u8, 0x4cu8, 0x4eu8]),
        code_of(seq![0x50u8, 0x59u8, 0x47u8]),
    ]
}

/// The known currencies from `QAR` to `SEK`.
#[verifier::opaque]
pub open spec fn known_qar_to_sek() -> Seq<CurrencyCode> {
    seq![
        code_of(seq![0x51u8, 0x41u8, 0x52u8]),
        code_of(seq![0x52u8, 0x4fu8, 0x4eu8]),
        code_of(seq![0x52u8, 0x53u8, 0x44u8]),
        code_of(seq![0x52u8, 0x55u8, 0x42u8]),
        code_of(seq![0x52u8, 0x57u8, 0x46u8]),
        code_of(seq![0x53u8, 0x41u8, 0x52u8]),
        code_of(seq![0x53u8, 0x42u8, 0x44u8]),
        code_of(seq![0x53u8, 0x43u8, 0x52u8]),
        code_of(seq![0x53u8, 0x44u8, 0x47u8]),
        code_of(seq![0x53u8, 0x45u8, 0x4bu8]),
    ]
}

/// The known currencies from `SGD` to `SZL`.
#[verifier::opaque]
pub open spec fn known_sgd_to_szl() -> Seq<CurrencyCode> {
    seq![
        code_of(seq![0x53u8, 0x47u8, 0x44u8]),
        code_of(seq![0x53u8, 0x48u8, 0x50u8]),
        code_of(seq![0x53u8, 0x4cu8, 0x4cu8]),
        code_of(seq![0x53u8, 0x4fu8, 0x4cu8]),
        code_of(seq![0x53u8, 0x4fu8, 0x53u8]),
        code_of(seq![0x53u8, 0x52u8, 0x44u8]),
        code_of(seq![0x53u8, 0x54u8, 0x44u8]),
        code_of(seq![0x53u8, 0x56u8, 0x43u8]),
        code_of(seq![0x53u8, 0x59u8, 0x50u8]),
        code_of(seq![0x53u8, 0x5au8, 0x4cu8]),
    ]
}

/// The known currencies from `THB` to `UAH`.
#[verifier::opaque]
pub open spec fn known_thb_to_uah() -> Seq<CurrencyCode> {
    seq![
        code_of(seq![0x54u8, 0x48u8, 0x42u8]),
        code_of(seq![0x54u8, 0x4au8, 0x53u8]),
        code_of(seq![0x54u8, 0x4du8, 0x54u8]),
        code_of(seq![0x54u8, 0x4eu8, 0x44u8]),
        code_of(seq![0x54u8, 0x4fu8, 0x50u8]),
        code_of(seq![0x54u8, 0x52u8, 0x59u8]),
        code_of(seq![0x54u8, 0x54u8, 0x44u8]),
        code_of(seq![0x54u8, 0x57u8, 0x44u8]),
        code_of(seq![0x54u8, 0x5au8, 0x53u8]),
        code_of(seq![0x55u8, 0x41u8, 0x48u8]),
    ]
}

/// The known currencies from `UGX` to `WST`.
#[verifier::opaque]
pub open spec fn known_ugx_to_wst() -> Seq<CurrencyCode> {
    seq![
        code_of(seq![0x55u8, 0x47u8, 0x58u8]),
        code_of(seq![0x55u8, 0x53u8, 0x44u8]),
        code_of(seq![0x55u8, 0x53u8, 0x44u8, 0x43u8]),
        code_of(seq![0x55u8, 0x53u8, 0x44u8, 0x54u8]),
        code_of(seq![0x55u8, 0x59u8, 0x55u8]),
        code_of(seq![0x55u8, 0x5au8, 0x53u8]),
        code_of(seq![0x56u8, 0x45u8, 0x46u8]),
        code_of(seq![0x56u8, 0x4eu8, 0x44u8]),
        code_of(seq![0x56u8, 0x55u8, 0x56u8]),
        code_of(seq![0x57u8, 0x53u8, 0x54u8]),
    ]
}

/// The known currencies from `XAF` to `XRP`.
#[verifier::opaque]
pub open spec fn known_xaf_to_xrp() -> Seq<CurrencyCode> {
    seq![
        code_of(seq![0x58u8, 0x41u8, 0x46u8]),
        code_of(seq![0x58u8, 0x41u8, 0x47u8]),
        code_of(seq![0x58u8, 0x41u8, 0x55u8]),
        code_of(seq![0x58u8, 0x43u8, 0x44u8]),
        code_of(seq![0x58u8, 0x44u8, 0x52u8]),
        code_of(seq![0x58u8, 0x4fu8, 0x46u8]),
        code_of(seq![0x58u8, 0x50u8, 0x44u8]),
        code_of(seq![0x58u8, 0x50u8, 0x46u8]),
        code_of(seq![0x58u8, 0x50u8, 0x54u8]),
        code_of(seq![0x58u8, 0x52u8, 0x50u8]),
    ]
}

/// The known currencies from `YER` to `ZWL`.
#[verifier::opaque]
pub open spec fn known_yer_to_zwl() -> Seq<CurrencyCode> {
    seq![
        code_of(seq![0x59u8, 0x45u8, 0x52u8]),
        code_of(seq![0x5au8, 0x41u8, 0x52u8]),
        code_of(seq![0x5au8, 0x4du8, 0x4bu8]),
        code_of(seq![0x5au8, 0x4du8, 0x57u8]),
        code_of(seq![0x5au8, 0x57u8, 0x4cu8]),
    ]
}

/// The known currencies, in the order of their names.
pub open spec fn known() -> Seq<CurrencyCode> {
    known_ada_to_aud()
        + known_avax_to_bmd()
        + known_bnb_to_byn()
        + known_byr_to_crc()
        + known_cuc_to_dzd()
        + known_egp_to_ggp()
        + known_ghs_to_htg()
        + known_huf_to_jmd()
        + known_jod_to_kyd()
        + known_kzt_to_lyd()
        + known_mad_to_mur()
        + known_mvr_to_npr()
        + known_nzd_to_pyg()
        + known_qar_to_sek()
        + known_sgd_to_szl()
        + known_thb_to_uah()
        + known_ugx_to_wst()
        + known_xaf_to_xrp()
        + known_yer_to_zwl()
}

/// The known currencies from `ADA` to `AUD` are 10 well-formed codes of 30
/// letters, all together.
proof fn lemma_known_ada_to_aud()
    ensures
        known_ada_to_aud().len() == 10,
        all_wf(known_ada_to_aud()),
        letters(known_ada_to_aud()) == 30,
{
    reveal(known_ada_to_aud);
    let s0 = Seq::<CurrencyCode>::empty();
    lemma_code_of(seq![0x41u8, 0x44u8, 0x41u8]);
    let c0 = code_of(seq![0x41u8, 0x44u8, 0x41u8]);
    lemma_letters_push(s0, c0);
    let s1 = s0.push(c0);
    lemma_code_of(seq![0x41u8, 0x45u8, 0x44u8]);
    let c1 = code_of(seq![0x41u8, 0x45u8, 0x44u8]);
    lemma_letters_push(s1, c1);
    let s2 = s1.push(c1);
    lemma_code_of(seq![0x41u8, 0x46u8, 0x4eu8]);
    let c2 = code_of(seq![0x41u8, 0x46u8, 0x4eu8]);
    lemma_letters_push(s2, c2);
    let s3 = s2.push(c2);
    lemma_code_of(seq![0x41u8, 0x4cu8, 0x4cu8]);
    let c3 = code_of(seq![0x41u8, 0x4cu8, 0x4cu8]);
    lemma_letters_push(s3, c3);
    let s4 = s3.push(c3);
    lemma_code_of(seq![0x41u8, 0x4du8, 0x44u8]);
    let c4 = code_of(seq![0x41u8, 0x4du8, 0x44u8]);
    lemma_letters_push(s4, c4);
    let s5 = s4.push(c4);
    lemma_code_of(seq![0x41u8, 0x4eu8, 0x47u8]);
    let c5 = code_of(seq![0x41u8, 0x4eu8, 0x47u8]);
    lemma_letters_push(s5, c5);
    let s6 = s5.push(c5);
    lemma_code_of(seq![0x41u8, 0x4fu8, 0x41u8]);
    let c6 = code_of(seq![0x41u8, 0x4fu8, 0x41u8]);
    lemma_letters_push(s6, c6);
    let s7 = s6.push(c6);
    lemma_code_of(seq![0x41u8, 0x52u8, 0x42u8]);
    let c7 = code_of(seq![0x41u8, 0x52u8, 0x42u8]);
    lemma_letters_push(s7, c7);
    let s8 = s7.push(c7);
    lemma_code_of(seq![0x41u8, 0x52u8, 0x53u8]);
    let c8 = code_of(seq![0x41u8, 0x52u8, 0x53u8]);
    lemma_letters_push(s8, c8);
    let s9 = s8.push(c8);
    lemma_code_of(seq![0x41u8, 0x55u8, 0x44u8]);
    let c9 = code_of(seq![0x41u8, 0x55u8, 0x44u8]);
    lemma_letters_push(s9, c9);
    let s10 = s9.push(c9);
    assert(known_ada_to_aud() =~= s10);
}

/// The known currencies from `AVAX` to `BMD` are 10 well-formed codes of 31
/// letters, all together.
proof fn lemma_known_avax_to_bmd()
    ensures
        known_avax_to_bmd().len() == 10,
        all_wf(known_avax_to_bmd()),
        letters(known_avax_to_bmd()) == 31,
{
    reveal(known_avax_to_bmd);
    let s0 = Seq::<CurrencyCode>::empty();
    lemma_code_of(seq![0x41u8, 0x56u8, 0x41u8, 0x58u8]);
    let c0 = code_of(seq![0x41u8, 0x56u8, 0x41u8, 0x58u8]);
    lemma_letters_push(s0, c0);
    let s1 = s0.push(c0);
    lemma_code_of(seq![0x41u8, 0x57u8, 0x47u8]);
    let c1 = code_of(seq![0x41u8, 0x57u8, 0x47u8]);
    lemma_letters_push(s1, c1);
    let s2 = s1.push(c1);
    lemma_code_of(seq![0x41u8, 0x5au8, 0x4eu8]);
    let c2 = code_of(seq![0x41u8, 0x5au8, 0x4eu8]);
    lemma_letters_push(s2, c2);
    let s3 = s2.push(c2);
    lemma_code_of(seq![0x42u8, 0x41u8, 0x4du8]);
    let c3 = code_of(seq![0x42u8, 0x41u8, 0x4du8]);
    lemma_letters_push(s3, c3);
    let s4 = s3.push(c3);
    lemma_code_of(seq![0x42u8, 0x42u8, 0x44u8]);
    let c4 = code_of(seq![0x42u8, 0x42u8, 0x44u8]);
    lemma_letters_push(s4, c4);
    let s5 = s4.push(c4);
    lemma_code_of(seq![0x42u8, 0x44u8, 0x54u8]);
    let c5 = code_of(seq![0x42u8, 0x44u8, 0x54u8]);
    lemma_letters_push(s5, c5);
    let s6 = s5.push(c5);
    lemma_code_of(seq![0x42u8, 0x47u8, 0x4eu8]);
    let c6 = code_of(seq![0x42u8, 0x47u8, 0x4eu8]);
    lemma_letters_push(s6, c6);
    let s7 = s6.push(c6);
    lemma_code_of(seq![0x42u8, 0x48u8, 0x44u8]);
    let c7 = code_of(seq![0x42u8, 0x48u8, 0x44u8]);
    lemma_letters_push(s7, c7);
    let s8 = s7.push(c7);
    lemma_code_of(seq![0x42u8, 0x49u8, 0x46u8]);
    let c8 = code_of(seq![0x42u8, 0x49u8, 0x46u8]);
    lemma_letters_push(s8, c8);
    let s9 = s8.push(c8);
    lemma_code_of(seq![0x42u8, 0x4du8, 0x44u8]);
    let c9 = code_of(seq![0x42u8, 0x4du8, 0x44u8]);
    lemma_letters_push(s9, c9);
    let s10 = s9.push(c9);
    assert(known_avax_to_bmd() =~= s10);
}

/// The known currencies from `BNB` to `BYN` are 10 well-formed codes of 31
/// letters, all together.
proof fn lemma_known_bnb_to_byn()
    ensures
        known_bnb_to_byn().len() == 10,
        all_wf(known_bnb_to_byn()),
        letters(known_bnb_to_byn()) == 31,
{
    reveal(known_bnb_to_byn);
    let s0 = Seq::<CurrencyCode>::empty();
    lemma_code_of(seq![0x42u8, 0x4eu8, 0x42u8]);
    let c0 = code_of(seq![0x42u8, 0x4eu8, 0x42u8]);
    lemma_letters_push(s0, c0);
    let s1 = s0.push(c0);
    lemma_code_of(seq![0x42u8, 0x4eu8, 0x44u8]);
    let c1 = code_of(seq![0x42u8, 0x4eu8, 0x44u8]);
    lemma_letters_push(s1, c1);
    let s2 = s1.push(c1);
    lemma_code_of(seq![0x42u8, 0x4fu8, 0x42u8]);
    let c2 = code_of(seq![0x42u8, 0x4fu8, 0x42u8]);
    lemma_letters_push(s2, c2);
    let s3 = s2.push(c2);
    lemma_code_of(seq![0x42u8, 0x52u8, 0x4cu8]);
    let c3 = code_of(seq![0x42u8, 0x52u8, 0x4cu8]);
    lemma_letters_push(s3, c3);
    let s4 = s3.push(c3);
    lemma_code_of(seq![0x42u8, 0x53u8, 0x44u8]);
    let c4 = code_of(seq![0x42u8, 0x53u8, 0x44u8]);
    lemma_letters_push(s4, c4);
    let s5 = s4.push(c4);
    lemma_code_of(seq![0x42u8, 0x54u8, 0x43u8]);
    let c5 = code_of(seq![0x42u8, 0x54u8, 0x43u8]);
    lemma_letters_push(s5, c5);
    let s6 = s5.push(c5);
    lemma_code_of(seq![0x42u8, 0x54u8, 0x4eu8]);
    let c6 = code_of(seq![0x42u8, 0x54u8, 0x4eu8]);
    lemma_letters_push(s6, c6);
    let s7 = s6.push(c6);
    lemma_code_of(seq![0x42u8, 0x55u8, 0x53u8, 0x44u8]);
    let c7 = code_of(seq![0x42u8, 0x55u8, 0x53u8, 0x44u8]);
    lemma_letters_push(s7, c7);
    let s8 = s7.push(c7);
    lemma_code_of(seq![0x42u8, 0x57u8, 0x50u8]);
    let c8 = code_of(seq![0x42u8, 0x57u8, 0x50u8]);
    lemma_letters_push(s8, c8);
    let s9 = s8.push(c8);
    lemma_code_of(seq![0x42u8, 0x59u8, 0x4eu8]);
    let c9 = code_of(seq![0x42u8, 0x59u8, 0x4eu8]);
    lemma_letters_push(s9, c9);
    let s10 = s9.push(c9);
    assert(known_bnb_to_byn() =~= s10);
}

/// The known currencies from `BYR` to `CRC` are 10 well-formed codes of 30
/// letters, all together.
proof fn lemma_known_byr_to_crc()
    ensures
        known_byr_to_crc().len() == 10,
        all_wf(known_byr_to_crc()),
        letters(known_byr_to_crc()) == 30,
{
    reveal(known_byr_to_crc);
    let s0 = Seq::<CurrencyCode>::empty();
    lemma_code_of(seq![0x42u8, 0x59u8, 0x52u8]);
    let c0 = code_of(seq![0x42u8, 0x59u8, 0x52u8]);
    lemma_letters_push(s0, c0);
    let s1 = s0.push(c0);
    lemma_code_of(seq![0x42u8, 0x5au8, 0x44u8]);
    let c1 = code_of(seq![0x42u8, 0x5au8, 0x44u8]);
    lemma_letters_push(s1, c1);
    let s2 = s1.push(c1);
    lemma_code_of(seq![0x43u8, 0x41u8, 0x44u8]);
    let c2 = code_of(seq![0x43u8, 0x41u8, 0x44u8]);
    lemma_letters_push(s2, c2);
    let s3 = s2.push(c2);
    lemma_code_of(seq![0x43u8, 0x44u8, 0x46u8]);
    let c3 = code_of(seq![0x43u8, 0x44u8, 0x46u8]);
    lemma_letters_push(s3, c3);
    let s4 = s3.push(c3);
    lemma_code_of(seq![0x43u8, 0x48u8, 0x46u8]);
    let c4 = code_of(seq![0x43u8, 0x48u8, 0x46u8]);
    lemma_letters_push(s4, c4);
    let s5 = s4.push(c4);
    lemma_code_of(seq![0x43u8, 0x4cu8, 0x46u8]);
    let c5 = code_of(seq![0x43u8, 0x4cu8, 0x46u8]);
    lemma_letters_push(s5, c5);
    let s6 = s5.push(c5);
    lemma_code_of(seq![0x43u8, 0x4cu8, 0x50u8]);
    let c6 = code_of(seq![0x43u8, 0x4cu8, 0x50u8]);
    lemma_letters_push(s6, c6);
    let s7 = s6.push(c6);
    lemma_code_of(seq![0x43u8, 0x4eu8, 0x59u8]);
    let c7 = code_of(seq![0x43u8, 0x4eu8, 0x59u8]);
    lemma_letters_push(s7, c7);
    let s8 = s7.push(c7);
    lemma_code_of(seq![0x43u8, 0x4fu8, 0x50u8]);
    let c8 = code_of(seq![0x43u8, 0x4fu8, 0x50u8]);
    lemma_letters_push(s8, c8);
    let s9 = s8.push(c8);
    lemma_code_of(seq![0x43u8, 0x52u8, 0x43u8]);
    let c9 = code_of(seq![0x43u8, 0x52u8, 0x43u8]);
    lemma_letters_push(s9, c9);
    let s10 = s9.push(c9);
    assert(known_byr_to_crc() =~= s10);
}

/// The known currencies from `CUC` to `DZD` are 10 well-formed codes of 30
/// letters, all together.
proof fn lemma_known_cuc_to_dzd()
    ensures
        known_cuc_to_dzd().len() == 10,
        all_wf(known_cuc_to_dzd()),
        letters(known_cuc_to_dzd()) == 30,
{
    reveal(known_cuc_to_dzd);
    let s0 = Seq::<CurrencyCode>::empty();
    lemma_code_of(seq![0x43u8, 0x55u8, 0x43u8]);
    let c0 = code_of(seq![0x43u8, 0x55u8, 0x43u8]);
    lemma_letters_push(s0, c0);
    let s1 = s0.push(c0);
    lemma_code_of(seq![0x43u8, 0x55u8, 0x50u8]);
    let c1 = code_of(seq![0x43u8, 0x55u8, 0x50u8]);
    lemma_letters_push(s1, c1);
    let s2 = s1.push(c1);
    lemma_code_of(seq![0x43u8, 0x56u8, 0x45u8]);
    let c2 = code_of(seq![0x43u8, 0x56u8, 0x45u8]);
    lemma_letters_push(s2, c2);
    let s3 = s2.push(c2);
    lemma_code_of(seq![0x43u8, 0x5au8, 0x4bu8]);
    let c3 = code_of(seq![0x43u8, 0x5au8, 0x4bu8]);
    lemma_letters_push(s3, c3);
    let s4 = s3.push(c3);
    lemma_code_of(seq![0x44u8, 0x41u8, 0x49u8]);
    let c4 = code_of(seq![0x44u8, 0x41u8, 0x49u8]);
    lemma_letters_push(s4, c4);
    let s5 = s4.push(c4);
    lemma_code_of(seq![0x44u8, 0x4au8, 0x46u8]);
    let c5 = code_of(seq![0x44u8, 0x4au8, 0x46u8]);
    lemma_letters_push(s5, c5);
    let s6 = s5.push(c5);
    lemma_code_of(seq![0x44u8, 0x4bu8, 0x4bu8]);
    let c6 = code_of(seq![0x44u8, 0x4bu8, 0x4bu8]);
    lemma_letters_push(s6, c6);
    let s7 = s6.push(c6);
    lemma_code_of(seq![0x44u8, 0x4fu8, 0x50u8]);
    let c7 = code_of(seq![0x44u8, 0x4fu8, 0x50u8]);
    lemma_letters_push(s7, c7);
    let s8 = s7.push(c7);
    lemma_code_of(seq![0x44u8, 0x4fu8, 0x54u8]);
    let c8 = code_of(seq![0x44u8, 0x4fu8, 0x54u8]);
    lemma_letters_push(s8, c8);
    let s9 = s8.push(c8);
    lemma_code_of(seq![0x44u8, 0x5au8, 0x44u8]);
    let c9 = code_of(seq![0x44u8, 0x5au8, 0x44u8]);
    lemma_letters_push(s9, c9);
    let s10 = s9.push(c9);
    assert(known_cuc_to_dzd() =~= s10);
}

/// The known currencies from `EGP` to `GGP` are 10 well-formed codes of 30
/// letters, all together.
proof fn lemma_known_egp_to_ggp()
    ensures
        known_egp_to_ggp().len() == 10,
        all_wf(known_egp_to_ggp()),
        letters(known_egp_to_ggp()) == 30,
{
    reveal(known_egp_to_ggp);
    let s0 = Seq::<CurrencyCode>::empty();
    lemma_code_of(seq![0x45u8, 0x47u8, 0x50u8]);
    let c0 = code_of(seq![0x45u8, 0x47u8, 0x50u8]);
    lemma_letters_push(s0, c0);
    let s1 = s0.push(c0);
    lemma_code_of(seq![0x45u8, 0x52u8, 0x4eu8]);
    let c1 = code_of(seq![0x45u8, 0x52u8, 0x4eu8]);
    lemma_letters_push(s1, c1);
    let s2 = s1.push(c1);
    lemma_code_of(seq![0x45u8, 0x54u8, 0x42u8]);
    let c2 = code_of(seq![0x45u8, 0x54u8, 0x42u8]);
    lemma_letters_push(s2, c2);
    let s3 = s2.push(c2);
    lemma_code_of(seq![0x45u8, 0x54u8, 0x48u8]);
    let c3 = code_of(seq![0x45u8, 0x54u8, 0x48u8]);
    lemma_letters_push(s3, c3);
    let s4 = s3.push(c3);
    lemma_code_of(seq![0x45u8, 0x55u8, 0x52u8]);
    let c4 = code_of(seq![0x45u8, 0x55u8, 0x52u8]);
    lemma_letters_push(s4, c4);
    let s5 = s4.push(c4);
    lemma_code_of(seq![0x46u8, 0x4au8, 0x44u8]);
    let c5 = code_of(seq![0x46u8, 0x4au8, 0x44u8]);
    lemma_letters_push(s5, c5);
    let s6 = s5.push(c5);
    lemma_code_of(seq![0x46u8, 0x4bu8, 0x50u8]);
    let c6 = code_of(seq![0x46u8, 0x4bu8, 0x50u8]);
    lemma_letters_push(s6, c6);
    let s7 = s6.push(c6);
    lemma_code_of(seq![0x47u8, 0x42u8, 0x50u8]);
    let c7 = code_of(seq![0x47u8, 0x42u8, 0x50u8]);
    lemma_letters_push(s7, c7);
    let s8 = s7.push(c7);
    lemma_code_of(seq![0x47u8, 0x45u8, 0x4cu8]);
    let c8 = code_of(seq![0x47u8, 0x45u8, 0x4cu8]);
    lemma_letters_push(s8, c8);
    let s9 = s8.push(c8);
    lemma_code_of(seq![0x47u8, 0x47u8, 0x50u8]);
    let c9 = code_of(seq![0x47u8, 0x47u8, 0x50u8]);
    lemma_letters_push(s9, c9);
    let s10 = s9.push(c9);
    assert(known_egp_to_ggp() =~= s10);
}

/// The known currencies from `GHS` to `HTG` are 10 well-formed codes of 30
/// letters, all together.
proof fn lemma_known_ghs_to_htg()
    ensures
        known_ghs_to_htg().len() == 10,
        all_wf(known_ghs_to_htg()),
        letters(known_ghs_to_htg()) == 30,
{
    reveal(known_ghs_to_htg);
    let s0 = Seq::<CurrencyCode>::empty();
    lemma_code_of(seq![0x47u8, 0x48u8, 0x53u8]);
    let c0 = code_of(seq![0x47u8, 0x48u8, 0x53u8]);
    lemma_letters_push(s0, c0);
    let s1 = s0.push(c0);
    lemma_code_of(seq![0x47u8, 0x49u8, 0x50u8]);
    let c1 = code_of(seq![0x47u8, 0x49u8, 0x50u8]);
    lemma_letters_push(s1, c1);
    let s2 = s1.push(c1);
    lemma_code_of(seq![0x47u8, 0x4du8, 0x44u8]);
    let c2 = code_of(seq![0x47u8, 0x4du8, 0x44u8]);
    lemma_letters_push(s2, c2);
    let s3 = s2.push(c2);
    lemma_code_of(seq![0x47u8, 0x4eu8, 0x46u8]);
    let c3 = code_of(seq![0x47u8, 0x4eu8, 0x46u8]);
    lemma_letters_push(s3, c3);
    let s4 = s3.push(c3);
    lemma_code_of(seq![0x47u8, 0x54u8, 0x51u8]);
    let c4 = code_of(seq![0x47u8, 0x54u8, 0x51u8]);
    lemma_letters_push(s4, c4);
    let s5 = s4.push(c4);
    lemma_code_of(seq![0x47u8, 0x59u8, 0x44u8]);
    let c5 = code_of(seq![0x47u8, 0x59u8, 0x44u8]);
    lemma_letters_push(s5, c5);
    let s6 = s5.push(c5);
    lemma_code_of(seq![0x48u8, 0x4bu8, 0x44u8]);
    let c6 = code_of(seq![0x48u8, 0x4bu8, 0x44u8]);
    lemma_letters_push(s6, c6);
    let s7 = s6.push(c6);
    lemma_code_of(seq![0x48u8, 0x4eu8, 0x4cu8]);
    let c7 = code_of(seq![0x48u8, 0x4eu8, 0x4cu8]);
    lemma_letters_push(s7, c7);
    let s8 = s7.push(c7);
    lemma_code_of(seq![0x48u8, 0x52u8, 0x4bu8]);
    let c8 = code_of(seq![0x48u8, 0x52u8, 0x4bu8]);
    lemma_letters_push(s8, c8);
    let s9 = s8.push(c8);
    lemma_code_of(seq![0x48u8, 0x54u8, 0x47u8]);
    let c9 = code_of(seq![0x48u8, 0x54u8, 0x47u8]);
    lemma_letters_push(s9, c9);
    let s10 = s9.push(c9);
    assert(known_ghs_to_htg() =~= s10);
}

/// The known currencies from `HUF` to `JMD` are 10 well-formed codes of 30
/// letters, all together.
proof fn lemma_known_huf_to_jmd()
    ensures
        known_huf_to_jmd().len() == 10,
        all_wf(known_huf_to_jmd()),
        letters(known_huf_to_jmd()) == 30,
{
    reveal(known_huf_to_jmd);
    let s0 = Seq::<CurrencyCode>::empty();
    lemma_code_of(seq![0x48u8, 0x55u8, 0x46u8]);
    let c0 = code_of(seq![0x48u8, 0x55u8, 0x46u8]);
    lemma_letters_push(s0, c0);
    let s1 = s0.push(c0);
    lemma_code_of(seq![0x49u8, 0x44u8, 0x52u8]);
    let c1 = code_of(seq![0x49u8, 0x44u8, 0x52u8]);
    lemma_letters_push(s1, c1);
    let s2 = s1.push(c1);
    lemma_code_of(seq![0x49u8, 0x4cu8, 0x53u8]);
    let c2 = code_of(seq![0x49u8, 0x4cu8, 0x53u8]);
    lemma_letters_push(s2, c2);
    let s3 = s2.push(c2);
    lemma_code_of(seq![0x49u8, 0x4du8, 0x50u8]);
    let c3 = code_of(seq![0x49u8, 0x4du8, 0x50u8]);
    lemma_letters_push(s3, c3);
    let s4 = s3.push(c3);
    lemma_code_of(seq![0x49u8, 0x4eu8, 0x52u8]);
    let c4 = code_of(seq![0x49u8, 0x4eu8, 0x52u8]);
    lemma_letters_push(s4, c4);
    let s5 = s4.push(c4);
    lemma_code_of(seq![0x49u8, 0x51u8, 0x44u8]);
    let c5 = code_of(seq![0x49u8, 0x51u8, 0x44u8]);
    lemma_letters_push(s5, c5);
    let s6 = s5.push(c5);
    lemma_code_of(seq![0x49u8, 0x52u8, 0x52u8]);
    let c6 = code_of(seq![0x49u8, 0x52u8, 0x52u8]);
    lemma_letters_push(s6, c6);
    let s7 = s6.push(c6);
    lemma_code_of(seq![0x49u8, 0x53u8, 0x4bu8]);
    let c7 = code_of(seq![0x49u8, 0x53u8, 0x4bu8]);
    lemma_letters_push(s7, c7);
    let s8 = s7.push(c7);
    lemma_code_of(seq![0x4au8, 0x45u8, 0x50u8]);
    let c8 = code_of(seq![0x4au8, 0x45u8, 0x50u8]);
    lemma_letters_push(s8, c8);
    let s9 = s8.push(c8);
    lemma_code_of(seq![0x4au8, 0x4du8, 0x44u8]);
    let c9 = code_of(seq![0x4au8, 0x4du8, 0x44u8]);
    lemma_letters_push(s9, c9);
    let s10 = s9.push(c9);
    assert(known_huf_to_jmd() =~= s10);
}

/// The known currencies from `JOD` to `KYD` are 10 well-formed codes of 30
/// letters, all together.
proof fn lemma_known_jod_to_kyd()
    ensures
        known_jod_to_kyd().len() == 10,
        all_wf(known_jod_to_kyd()),
        letters(known_jod_to_kyd()) == 30,
{
    reveal(known_jod_to_kyd);
    let s0 = Seq::<CurrencyCode>::empty();
    lemma_code_of(seq![0x4au8, 0x4fu8, 0x44u8]);
    let c0 = code_of(seq![0x4au8, 0x4fu8, 0x44u8]);
    lemma_letters_push(s0, c0);
    let s1 = s0.push(c0);
    lemma_code_of(seq![0x4au8, 0x50u8, 0x59u8]);
    let c1 = code_of(seq![0x4au8, 0x50u8, 0x59u8]);
    lemma_letters_push(s1, c1);
    let s2 = s1.push(c1);
    lemma_code_of(seq![0x4bu8, 0x45u8, 0x53u8]);
    let c2 = code_of(seq![0x4bu8, 0x45u8, 0x53u8]);
    lemma_letters_push(s2, c2);
    let s3 = s2.push(c2);
    lemma_code_of(seq![0x4bu8, 0x47u8, 0x53u8]);
    let c3 = code_of(seq![0x4bu8, 0x47u8, 0x53u8]);
    lemma_letters_push(s3, c3);
    let s4 = s3.push(c3);
    lemma_code_of(seq![0x4bu8, 0x48u8, 0x52u8]);
    let c4 = code_of(seq![0x4bu8, 0x48u8, 0x52u8]);
    lemma_letters_push(s4, c4);
    let s5 = s4.push(c4);
    lemma_code_of(seq![0x4bu8, 0x4du8, 0x46u8]);
    let c5 = code_of(seq![0x4bu8, 0x4du8, 0x46u8]);
    lemma_letters_push(s5, c5);
    let s6 = s5.push(c5);
    lemma_code_of(seq![0x4bu8, 0x50u8, 0x57u8]);
    let c6 = code_of(seq![0x4bu8, 0x50u8, 0x57u8]);
    lemma_letters_push(s6, c6);
    let s7 = s6.push(c6);
    lemma_code_of(seq![0x4bu8, 0x52u8, 0x57u8]);
    let c7 = code_of(seq![0x4bu8, 0x52u8, 0x57u8]);
    lemma_letters_push(s7, c7);
    let s8 = s7.push(c7);
    lemma_code_of(seq![0x4bu8, 0x57u8, 0x44u8]);
    let c8 = code_of(seq![0x4bu8, 0x57u8, 0x44u8]);
    lemma_letters_push(s8, c8);
    let s9 = s8.push(c8);
    lemma_code_of(seq![0x4bu8, 0x59u8, 0x44u8]);
    let c9 = code_of(seq![0x4bu8, 0x59u8, 0x44u8]);
    lemma_letters_push(s9, c9);
    let s10 = s9.push(c9);
    assert(known_jod_to_kyd() =~= s10);
}

/// The known currencies from `KZT` to `LYD` are 10 well-formed codes of 30
/// letters, all together.
proof fn lemma_known_kzt_to_lyd()
    ensures
        known_kzt_to_lyd().len() == 10,
        all_wf(known_kzt_to_lyd()),
        letters(known_kzt_to_lyd()) == 30,
{
    reveal(known_kzt_to_lyd);
    let s0 = Seq::<CurrencyCode>::empty();
    lemma_code_of(seq![0x4bu8, 0x5au8, 0x54u8]);
    let c0 = code_of(seq![0x4bu8, 0x5au8, 0x54u8]);
    lemma_letters_push(s0, c0);
    let s1 = s0.push(c0);
    lemma_code_of(seq![0x4cu8, 0x41u8, 0x4bu8]);
    let c1 = code_of(seq![0x4cu8, 0x41u8, 0x4bu8]);
    lemma_letters_push(s1, c1);
    let s2 = s1.push(c1);
    lemma_code_of(seq![0x4cu8, 0x42u8, 0x50u8]);
    let c2 = code_of(seq![0x4cu8, 0x42u8, 0x50u8]);
    lemma_letters_push(s2, c2);
    let s3 = s2.push(c2);
    lemma_code_of(seq![0x4cu8, 0x4bu8, 0x52u8]);
    let c3 = code_of(seq![0x4cu8, 0x4bu8, 0x52u8]);
    lemma_letters_push(s3, c3);
    let s4 = s3.push(c3);
    lemma_code_of(seq![0x4cu8, 0x52u8, 0x44u8]);
    let c4 = code_of(seq![0x4cu8, 0x52u8, 0x44u8]);
    lemma_letters_push(s4, c4);
    let s5 = s4.push(c4);
    lemma_code_of(seq![0x4cu8, 0x53u8, 0x4cu8]);
    let c5 = code_of(seq![0x4cu8, 0x53u8, 0x4cu8]);
    lemma_letters_push(s5, c5);
    let s6 = s5.push(c5);
    lemma_code_of(seq![0x4cu8, 0x54u8, 0x43u8]);
    let c6 = code_of(seq![0x4cu8, 0x54u8, 0x43u8]);
    lemma_letters_push(s6, c6);
    let s7 = s6.push(c6);
    lemma_code_of(seq![0x4cu8, 0x54u8, 0x4cu8]);
    let c7 = code_of(seq![0x4cu8, 0x54u8, 0x4cu8]);
    lemma_letters_push(s7, c7);
    let s8 = s7.push(c7);
    lemma_code_of(seq![0x4cu8, 0x56u8, 0x4cu8]);
    let c8 = code_of(seq![0x4cu8, 0x56u8, 0x4cu8]);
    lemma_letters_push(s8, c8);
    let s9 = s8.push(c8);
    lemma_code_of(seq![0x4cu8, 0x59u8, 0x44u8]);
    let c9 = code_of(seq![0x4cu8, 0x59u8, 0x44u8]);
    lemma_letters_push(s9, c9);
    let s10 = s9.push(c9);
    assert(known_kzt_to_lyd() =~= s10);
}

/// The known currencies from `MAD` to `MUR` are 10 well-formed codes of 32
/// letters, all together.
proof fn lemma_known_mad_to_mur()
    ensures
        known_mad_to_mur().len() == 10,
        all_wf(known_mad_to_mur()),
        letters(known_mad_to_mur()) == 32,
{
    reveal(known_mad_to_mur);
    let s0 = Seq::<CurrencyCode>::empty();
    lemma_code_of(seq![0x4du8, 0x41u8, 0x44u8]);
    let c0 = code_of(seq![0x4du8, 0x41u8, 0x44u8]);
    lemma_letters_push(s0, c0);
    let s1 = s0.push(c0);
    lemma_code_of(seq![0x4du8, 0x41u8, 0x54u8, 0x49u8, 0x43u8]);
    let c1 = code_of(seq![0x4du8, 0x41u8, 0x54u8, 0x49u8, 0x43u8]);
    lemma_letters_push(s1, c1);
    let s2 = s1.push(c1);
    lemma_code_of(seq![0x4du8, 0x44u8, 0x4cu8]);
    let c2 = code_of(seq![0x4du8, 0x44u8, 0x4cu8]);
    lemma_letters_push(s2, c2);
    let s3 = s2.push(c2);
    lemma_code_of(seq![0x4du8, 0x47u8, 0x41u8]);
    let c3 = code_of(seq![0x4du8, 0x47u8, 0x41u8]);
    lemma_letters_push(s3, c3);
    let s4 = s3.push(c3);
    lemma_code_of(seq![0x4du8, 0x4bu8, 0x44u8]);
    let c4 = code_of(seq![0x4du8, 0x4bu8, 0x44u8]);
    lemma_letters_push(s4, c4);
    let s5 = s4.push(c4);
    lemma_code_of(seq![0x4du8, 0x4du8, 0x4bu8]);
    let c5 = code_of(seq![0x4du8, 0x4du8, 0x4bu8]);
    lemma_letters_push(s5, c5);
    let s6 = s5.push(c5);
    lemma_code_of(seq![0x4du8, 0x4eu8, 0x54u8]);
    let c6 = code_of(seq![0x4du8, 0x4eu8, 0x54u8]);
    lemma_letters_push(s6, c6);
    let s7 = s6.push(c6);
    lemma_code_of(seq![0x4du8, 0x4fu8, 0x50u8]);
    let c7 = code_of(seq![0x4du8, 0x4fu8, 0x50u8]);
    lemma_letters_push(s7, c7);
    let s8 = s7.push(c7);
    lemma_code_of(seq![0x4du8, 0x52u8, 0x4fu8]);
    let c8 = code_of(seq![0x4du8, 0x52u8, 0x4fu8]);
    lemma_letters_push(s8, c8);
    let s9 = s8.push(c8);
    lemma_code_of(seq![0x4du8, 0x55u8, 0x52u8]);
    let c9 = code_of(seq![0x4du8, 0x55u8, 0x52u8]);
    lemma_letters_push(s9, c9);
    let s10 = s9.push(c9);
    assert(known_mad_to_mur() =~= s10);
}

/// The known currencies from `MVR` to `NPR` are 10 well-formed codes of 30
/// letters, all together.
proof fn lemma_known_mvr_to_npr()
    ensures
        known_mvr_to_npr().len() == 10,
        all_wf(known_mvr_to_npr()),
        letters(known_mvr_to_npr()) == 30,
{
    reveal(known_mvr_to_npr);
    let s0 = Seq::<CurrencyCode>::empty();
    lemma_code_of(seq![0x4du8, 0x56u8, 0x52u8]);
    let c0 = code_of(seq![0x4du8, 0x56u8, 0x52u8]);
    lemma_letters_push(s0, c0);
    let s1 = s0.push(c0);
    lemma_code_of(seq![0x4du8, 0x57u8, 0x4bu8]);
    let c1 = code_of(seq![0x4du8, 0x57u8, 0x4bu8]);
    lemma_letters_push(s1, c1);
    let s2 = s1.push(c1);
    lemma_code_of(seq![0x4du8, 0x58u8, 0x4eu8]);
    let c2 = code_of(seq![0x4du8, 0x58u8, 0x4eu8]);
    lemma_letters_push(s2, c2);
    let s3 = s2.push(c2);
    lemma_code_of(seq![0x4du8, 0x59u8, 0x52u8]);
    let c3 = code_of(seq![0x4du8, 0x59u8, 0x52u8]);
    lemma_letters_push(s3, c3);
    let s4 = s3.push(c3);
    lemma_code_of(seq![0x4du8, 0x5au8, 0x4eu8]);
    let c4 = code_of(seq![0x4du8, 0x5au8, 0x4eu8]);
    lemma_letters_push(s4, c4);
    let s5 = s4.push(c4);
    lemma_code_of(seq![0x4eu8, 0x41u8, 0x44u8]);
    let c5 = code_of(seq![0x4eu8, 0x41u8, 0x44u8]);
    lemma_letters_push(s5, c5);
    let s6 = s5.push(c5);
    lemma_code_of(seq![0x4eu8, 0x47u8, 0x4eu8]);
    let c6 = code_of(seq![0x4eu8, 0x47u8, 0x4eu8]);
    lemma_letters_push(s6, c6);
    let s7 = s6.push(c6);
    lemma_code_of(seq![0x4eu8, 0x49u8, 0x4fu8]);
    let c7 = code_of(seq![0x4eu8, 0x49u8, 0x4fu8]);
    lemma_letters_push(s7, c7);
    let s8 = s7.push(c7);
    lemma_code_of(seq![0x4eu8, 0x4fu8, 0x4bu8]);
    let c8 = code_of(seq![0x4eu8, 0x4fu8, 0x4bu8]);
    lemma_letters_push(s8, c8);
    let s9 = s8.push(c8);
    lemma_code_of(seq![0x4eu8, 0x50u8, 0x52u8]);
    let c9 = code_of(seq![0x4eu8, 0x50u8, 0x52u8]);
    lemma_letters_push(s9, c9);
    let s10 = s9.push(c9);
    assert(known_mvr_to_npr() =~= s10);
}

/// The known currencies from `NZD` to `PYG` are 10 well-formed codes of 29
/// letters, all together.
proof fn lemma_known_nzd_to_pyg()
    ensures
        known_nzd_to_pyg().len() == 10,
        all_wf(known_nzd_to_pyg()),
        letters(known_nzd_to_pyg()) == 29,
{
    reveal(known_nzd_to_pyg);
    let s0 = Seq::<CurrencyCode>::empty();
    lemma_code_of(seq![0x4eu8, 0x5au8, 0x44u8]);
    let c0 = code_of(seq![0x4eu8, 0x5au8, 0x44u8]);
    lemma_letters_push(s0, c0);
    let s1 = s0.push(c0);
    lemma_code_of(seq![0x4fu8, 0x4du8, 0x52u8]);
    let c1 = code_of(seq![0x4fu8, 0x4du8, 0x52u8]);
    lemma_letters_push(s1, c1);
    let s2 = s1.push(c1);
    lemma_code_of(seq![0x4fu8, 0x50u8]);
    let c2 = code_of(seq![0x4fu8, 0x50u8]);
    lemma_letters_push(s2, c2);
    let s3 = s2.push(c2);
    lemma_code_of(seq![0x50u8, 0x41u8, 0x42u8]);
    let c3 = code_of(seq![0x50u8, 0x41u8, 0x42u8]);
    lemma_letters_push(s3, c3);
    let s4 = s3.push(c3);
    lemma_code_of(seq![0x50u8, 0x45u8, 0x4eu8]);
    let c4 = code_of(seq![0x50u8, 0x45u8, 0x4eu8]);
    lemma_letters_push(s4, c4);
    let s5 = s4.push(c4);
    lemma_code_of(seq![0x50u8, 0x47u8, 0x4bu8]);
    let c5 = code_of(seq![0x50u8, 0x47u8, 0x4bu8]);
    lemma_letters_push(s5, c5);
    let s6 = s5.push(c5);
    lemma_code_of(seq![0x50u8, 0x48u8, 0x50u8]);
    let c6 = code_of(seq![0x50u8, 0x48u8, 0x50u8]);
    lemma_letters_push(s6, c6);
    let s7 = s6.push(c6);
    lemma_code_of(seq![0x50u8, 0x4bu8, 0x52u8]);
    let c7 = code_of(seq![0x50u8, 0x4bu8, 0x52u8]);
    lemma_letters_push(s7, c7);
    let s8 = s7.push(c7);
    lemma_code_of(seq![0x50u8, 0x4cu8, 0x4eu8]);
    let c8 = code_of(seq![0x50u8, 0x4cu8, 0x4eu8]);
    lemma_letters_push(s8, c8);
    let s9 = s8.push(c8);
    lemma_code_of(seq![0x50u8, 0x59u8, 0x47u8]);
    let c9 = code_of(seq![0x50u8, 0x59u8, 0x47u8]);
    lemma_letters_push(s9, c9);
    let s10 = s9.push(c9);
    assert(known_nzd_to_pyg() =~= s10);
}

/// The known currencies from `QAR` to `SEK` are 10 well-formed codes of 30
/// letters, all together.
proof fn lemma_known_qar_to_sek()
    ensures
        known_qar_to_sek().len() == 10,
        all_wf(known_qar_to_sek()),
        letters(known_qar_to_sek()) == 30,
{
    reveal(known_qar_to_sek);
    let s0 = Seq::<CurrencyCode>::empty();
    lemma_code_of(seq![0x51u8, 0x41u8, 0x52u8]);
    let c0 = code_of(seq![0x51u8, 0x41u8, 0x52u8]);
    lemma_letters_push(s0, c0);
    let s1 = s0.push(c0);
    lemma_code_of(seq![0x52u8, 0x4fu8, 0x4eu8]);
    let c1 = code_of(seq![0x52u8, 0x4fu8, 0x4eu8]);
    lemma_letters_push(s1, c1);
    let s2 = s1.push(c1);
    lemma_code_of(seq![0x52u8, 0x53u8, 0x44u8]);
    let c2 = code_of(seq![0x52u8, 0x53u8, 0x44u8]);
    lemma_letters_push(s2, c2);
    let s3 = s2.push(c2);
    lemma_code_of(seq![0x52u8, 0x55u8, 0x42u8]);
    let c3 = code_of(seq![0x52u8, 0x55u8, 0x42u8]);
    lemma_letters_push(s3, c3);
    let s4 = s3.push(c3);
    lemma_code_of(seq![0x52u8, 0x57u8, 0x46u8]);
    let c4 = code_of(seq![0x52u8, 0x57u8, 0x46u8]);
    lemma_letters_push(s4, c4);
    let s5 = s4.push(c4);
    lemma_code_of(seq![0x53u8, 0x41u8, 0x52u8]);
    let c5 = code_of(seq![0x53u8, 0x41u8, 0x52u8]);
    lemma_letters_push(s5, c5);
    let s6 = s5.push(c5);
    lemma_code_of(seq![0x53u8, 0x42u8, 0x44u8]);
    let c6 = code_of(seq![0x53u8, 0x42u8, 0x44u8]);
    lemma_letters_push(s6, c6);
    let s7 = s6.push(c6);
    lemma_code_of(seq![0x53u8, 0x43u8, 0x52u8]);
    let c7 = code_of(seq![0x53u8, 0x43u8, 0x52u8]);
    lemma_letters_push(s7, c7);
    let s8 = s7.push(c7);
    lemma_code_of(seq![0x53u8, 0x44u8, 0x47u8]);
    let c8 = code_of(seq![0x53u8, 0x44u8, 0x47u8]);
    lemma_letters_push(s8, c8);
    let s9 = s8.push(c8);
    lemma_code_of(seq![0x53u8, 0x45u8, 0x4bu8]);
    let c9 = code_of(seq![0x53u8, 0x45u8, 0x4bu8]);
    lemma_letters_push(s9, c9);
    let s10 = s9.push(c9);
    assert(known_qar_to_sek() =~= s10);
}

/// The known currencies from `SGD` to `SZL` are 10 well-formed codes of 30
/// letters, all together.
proof fn lemma_known_sgd_to_szl()
    ensures
        known_sgd_to_szl().len() == 10,
        all_wf(known_sgd_to_szl()),
        letters(known_sgd_to_szl()) == 30,
{
    reveal(known_sgd_to_szl);
    let s0 = Seq::<CurrencyCode>::empty();
    lemma_code_of(seq![0x53u8, 0x47u8, 0x44u8]);
    let c0 = code_of(seq![0x53u8, 0x47u8, 0x44u8]);
    lemma_letters_push(s0, c0);
    let s1 = s0.push(c0);
    lemma_code_of(seq![0x53u8, 0x48u8, 0x50u8]);
    let c1 = code_of(seq![0x53u8, 0x48u8, 0x50u8]);
    lemma_letters_push(s1, c1);
    let s2 = s1.push(c1);
    lemma_code_of(seq![0x53u8, 0x4cu8, 0x4cu8]);
    let c2 = code_of(seq![0x53u8, 0x4cu8, 0x4cu8]);
    lemma_letters_push(s2, c2);
    let s3 = s2.push(c2);
    lemma_code_of(seq![0x53u8, 0x4fu8, 0x4cu8]);
    let c3 = code_of(seq![0x53u8, 0x4fu8, 0x4cu8]);
    lemma_letters_push(s3, c3);
    let s4 = s3.push(c3);
    lemma_code_of(seq![0x53u8, 0x4fu8, 0x53u8]);
    let c4 = code_of(seq![0x53u8, 0x4fu8, 0x53u8]);
    lemma_letters_push(s4, c4);
    let s5 = s4.push(c4);
    lemma_code_of(seq![0x53u8, 0x52u8, 0x44u8]);
    let c5 = code_of(seq![0x53u8, 0x52u8, 0x44u8]);
    lemma_letters_push(s5, c5);
    let s6 = s5.push(c5);
    lemma_code_of(seq![0x53u8, 0x54u8, 0x44u8]);
    let c6 = code_of(seq![0x53u8, 0x54u8, 0x44u8]);
    lemma_letters_push(s6, c6);
    let s7 = s6.push(c6);
    lemma_code_of(seq![0x53u8, 0x56u8, 0x43u8]);
    let c7 = code_of(seq![0x53u8, 0x56u8, 0x43u8]);
    lemma_letters_push(s7, c7);
    let s8 = s7.push(c7);
    lemma_code_of(seq![0x53u8, 0x59u8, 0x50u8]);
    let c8 = code_of(seq![0x53u8, 0x59u8, 0x50u8]);
    lemma_letters_push(s8, c8);
    let s9 = s8.push(c8);
    lemma_code_of(seq![0x53u8, 0x5au8, 0x4cu8]);
    let c9 = code_of(seq![0x53u8, 0x5au8, 0x4cu8]);
    lemma_letters_push(s9, c9);
    let s10 = s9.push(c9);
    assert(known_sgd_to_szl() =~= s10);
}

/// The known currencies from `THB` to `UAH` are 10 well-formed codes of 30
/// letters, all together.
proof fn lemma_known_thb_to_uah()
    ensures
        known_thb_to_uah().len() == 10,
        all_wf(known_thb_to_uah()),
        letters(known_thb_to_uah()) == 30,
{
    reveal(known_thb_to_uah);
    let s0 = Seq::<CurrencyCode>::empty();
    lemma_code_of(seq![0x54u8, 0x48u8, 0x42u8]);
    let c0 = code_of(seq![0x54u8, 0x48u8, 0x42u8]);
    lemma_letters_push(s0, c0);
    let s1 = s0.push(c0);
    lemma_code_of(seq![0x54u8, 0x4au8, 0x53u8]);
    let c1 = code_of(seq![0x54u8, 0x4au8, 0x53u8]);
    lemma_letters_push(s1, c1);
    let s2 = s1.push(c1);
    lemma_code_of(seq![0x54u8, 0x4du8, 0x54u8]);
    let c2 = code_of(seq![0x54u8, 0x4du8, 0x54u8]);
    lemma_letters_push(s2, c2);
    let s3 = s2.push(c2);
    lemma_code_of(seq![0x54u8, 0x4eu8, 0x44u8]);
    let c3 = code_of(seq![0x54u8, 0x4eu8, 0x44u8]);
    lemma_letters_push(s3, c3);
    let s4 = s3.push(c3);
    lemma_code_of(seq![0x54u8, 0x4fu8, 0x50u8]);
    let c4 = code_of(seq![0x54u8, 0x4fu8, 0x50u8]);
    lemma_letters_push(s4, c4);
    let s5 = s4.push(c4);
    lemma_code_of(seq![0x54u8, 0x52u8, 0x59u8]);
    let c5 = code_of(seq![0x54u8, 0x52u8, 0x59u8]);
    lemma_letters_push(s5, c5);
    let s6 = s5.push(c5);
    lemma_code_of(seq![0x54u8, 0x54u8, 0x44u8]);
    let c6 = code_of(seq![0x54u8, 0x54u8, 0x44u8]);
    lemma_letters_push(s6, c6);
    let s7 = s6.push(c6);
    lemma_code_of(seq![0x54u8, 0x57u8, 0x44u8]);
    let c7 = code_of(seq![0x54u8, 0x57u8, 0x44u8]);
    lemma_letters_push(s7, c7);
    let s8 = s7.push(c7);
    lemma_code_of(seq![0x54u8, 0x5au8, 0x53u8]);
    let c8 = code_of(seq![0x54u8, 0x5au8, 0x53u8]);
    lemma_letters_push(s8, c8);
    let s9 = s8.push(c8);
    lemma_code_of(seq![0x55u8, 0x41u8, 0x48u8]);
    let c9 = code_of(seq![0x55u8, 0x41u8, 0x48u8]);
    lemma_letters_push(s9, c9);
    let s10 = s9.push(c9);
    assert(known_thb_to_uah() =~= s10);
}

/// The known currencies from `UGX` to `WST` are 10 well-formed codes of 32
/// letters, all together.
proof fn lemma_known_ugx_to_wst()
    ensures
        known_ugx_to_wst().len() == 10,
        all_wf(known_ugx_to_wst()),
        letters(known_ugx_to_wst()) == 32,
{
    reveal(known_ugx_to_wst);
    let s0 = Seq::<CurrencyCode>::empty();
    lemma_code_of(seq![0x55u8, 0x47u8, 0x58u8]);
    let c0 = code_of(seq![0x55u8, 0x47u8, 0x58u8]);
    lemma_letters_push(s0, c0);
    let s1 = s0.push(c0);
    lemma_code_of(seq![0x55u8, 0x53u8, 0x44u8]);
    let c1 = code_of(seq![0x55u8, 0x53u8, 0x44u8]);
    lemma_letters_push(s1, c1);
    let s2 = s1.push(c1);
    lemma_code_of(seq![0x55u8, 0x53u8, 0x44u8, 0x43u8]);
    let c2 = code_of(seq![0x55u8, 0x53u8, 0x44u8, 0x43u8]);
    lemma_letters_push(s2, c2);
    let s3 = s2.push(c2);
    lemma_code_of(seq![0x55u8, 0x53u8, 0x44u8, 0x54u8]);
    let c3 = code_of(seq![0x55u8, 0x53u8, 0x44u8, 0x54u8]);
    lemma_letters_push(s3, c3);
    let s4 = s3.push(c3);
    lemma_code_of(seq![0x55u8, 0x59u8, 0x55u8]);
    let c4 = code_of(seq![0x55u8, 0x59u8, 0x55u8]);
    lemma_letters_push(s4, c4);
    let s5 = s4.push(c4);
    lemma_code_of(seq![0x55u8, 0x5au8, 0x53u8]);
    let c5 = code_of(seq![0x55u8, 0x5au8, 0x53u8]);
    lemma_letters_push(s5, c5);
    let s6 = s5.push(c5);
    lemma_code_of(seq![0x56u8, 0x45u8, 0x46u8]);
    let c6 = code_of(seq![0x56u8, 0x45u8, 0x46u8]);
    lemma_letters_push(s6, c6);
    let s7 = s6.push(c6);
    lemma_code_of(seq![0x56u8, 0x4eu8, 0x44u8]);
    let c7 = code_of(seq![0x56u8, 0x4eu8, 0x44u8]);
    lemma_letters_push(s7, c7);
    let s8 = s7.push(c7);
    lemma_code_of(seq![0x56u8, 0x55u8, 0x56u8]);
    let c8 = code_of(seq![0x56u8, 0x55u8, 0x56u8]);
    lemma_letters_push(s8, c8);
    let s9 = s8.push(c8);
    lemma_code_of(seq![0x57u8, 0x53u8, 0x54u8]);
    let c9 = code_of(seq![0x57u8, 0x53u8, 0x54u8]);
    lemma_letters_push(s9, c9);
    let s10 = s9.push(c9);
    assert(known_ugx_to_wst() =~= s10);
}

/// The known currencies from `XAF` to `XRP` are 10 well-formed codes of 30
/// letters, all together.
proof fn lemma_known_xaf_to_xrp()
    ensures
        known_xaf_to_xrp().len() == 10,
        all_wf(known_xaf_to_xrp()),
        letters(known_xaf_to_xrp()) == 30,
{
    reveal(known_xaf_to_xrp);
    let s0 = Seq::<CurrencyCode>::empty();
    lemma_code_of(seq![0x58u8, 0x41u8, 0x46u8]);
    let c0 = code_of(seq![0x58u8, 0x41u8, 0x46u8]);
    lemma_letters_push(s0, c0);
    let s1 = s0.push(c0);
    lemma_code_of(seq![0x58u8, 0x41u8, 0x47u8]);
    let c1 = code_of(seq![0x58u8, 0x41u8, 0x47u8]);
    lemma_letters_push(s1, c1);
    let s2 = s1.push(c1);
    lemma_code_of(seq![0x58u8, 0x41u8, 0x55u8]);
    let c2 = code_of(seq![0x58u8, 0x41u8, 0x55u8]);
    lemma_letters_push(s2, c2);
    let s3 = s2.push(c2);
    lemma_code_of(seq![0x58u8, 0x43u8, 0x44u8]);
    let c3 = code_of(seq![0x58u8, 0x43u8, 0x44u8]);
    lemma_letters_push(s3, c3);
    let s4 = s3.push(c3);
    lemma_code_of(seq![0x58u8, 0x44u8, 0x52u8]);
    let c4 = code_of(seq![0x58u8, 0x44u8, 0x52u8]);
    lemma_letters_push(s4, c4);
    let s5 = s4.push(c4);
    lemma_code_of(seq![0x58u8, 0x4fu8, 0x46u8]);
    let c5 = code_of(seq![0x58u8, 0x4fu8, 0x46u8]);
    lemma_letters_push(s5, c5);
    let s6 = s5.push(c5);
    lemma_code_of(seq![0x58u8, 0x50u8, 0x44u8]);
    let c6 = code_of(seq![0x58u8, 0x50u8, 0x44u8]);
    lemma_letters_push(s6, c6);
    let s7 = s6.push(c6);
    lemma_code_of(seq![0x58u8, 0x50u8, 0x46u8]);
    let c7 = code_of(seq![0x58u8, 0x50u8, 0x46u8]);
    lemma_letters_push(s7, c7);
    let s8 = s7.push(c7);
    lemma_code_of(seq![0x58u8, 0x50u8, 0x54u8]);
    let c8 = code_of(seq![0x58u8, 0x50u8, 0x54u8]);
    lemma_letters_push(s8, c8);
    let s9 = s8.push(c8);
    lemma_code_of(seq![0x58u8, 0x52u8, 0x50u8]);
    let c9 = code_of(seq![0x58u8, 0x52u8, 0x50u8]);
    lemma_letters_push(s9, c9);
    let s10 = s9.push(c9);
    assert(known_xaf_to_xrp() =~= s10);
}

/// The known currencies from `YER` to `ZWL` are 5 well-formed codes of 15
/// letters, all together.
proof fn lemma_known_yer_to_zwl()
    ensures
        known_yer_to_zwl().len() == 5,
        all_wf(known_yer_to_zwl()),
        letters(known_yer_to_zwl()) == 15,
{
    reveal(known_yer_to_zwl);
    let s0 = Seq::<CurrencyCode>::empty();
    lemma_code_of(seq![0x59u8, 0x45u8, 0x52u8]);
    let c0 = code_of(seq![0x59u8, 0x45u8, 0x52u8]);
    lemma_letters_push(s0, c0);
    let s1 = s0.push(c0);
    lemma_code_of(seq![0x5au8, 0x41u8, 0x52u8]);
    let c1 = code_of(seq![0x5au8, 0x41u8, 0x52u8]);
    lemma_letters_push(s1, c1);
    let s2 = s1.push(c1);
    lemma_code_of(seq![0x5au8, 0x4du8, 0x4bu8]);
    let c2 = code_of(seq![0x5au8, 0x4du8, 0x4bu8]);
    lemma_letters_push(s2, c2);
    let s3 = s2.push(c2);
    lemma_code_of(seq![0x5au8, 0x4du8, 0x57u8]);
    let c3 = code_of(seq![0x5au8, 0x4du8, 0x57u8]);
    lemma_letters_push(s3, c3);
    let s4 = s3.push(c3);
    lemma_code_of(seq![0x5au8, 0x57u8, 0x4cu8]);
    let c4 = code_of(seq![0x5au8, 0x57u8, 0x4cu8]);
    lemma_letters_push(s4, c4);
    let s5 = s4.push(c4);
    assert(known_yer_to_zwl() =~= s5);
}

/// The known currencies are as many as [`LEN`] says, all well formed, and
/// have 560 letters, all together.
pub proof fn lemma_known()
    ensures
        known().len() == LEN,
        all_wf(known()),
        letters(known()) == 560,
{
    lemma_known_ada_to_aud();
    let k0 = known_ada_to_aud();
    lemma_known_avax_to_bmd();
    lemma_letters_concat(k0, known_avax_to_bmd());
    let k1 = k0 + known_avax_to_bmd();
    lemma_known_bnb_to_byn();
    lemma_letters_concat(k1, known_bnb_to_byn());
    let k2 = k1 + known_bnb_to_byn();
    lemma_known_byr_to_crc();
    lemma_letters_concat(k2, known_byr_to_crc());
    let k3 = k2 + known_byr_to_crc();
    lemma_known_cuc_to_dzd();
    lemma_letters_concat(k3, known_cuc_to_dzd());
    let k4 = k3 + known_cuc_to_dzd();
    lemma_known_egp_to_ggp();
    lemma_letters_concat(k4, known_egp_to_ggp());
    let k5 = k4 + known_egp_to_ggp();
    lemma_known_ghs_to_htg();
    lemma_letters_concat(k5, known_ghs_to_htg());
    let k6 = k5 + known_ghs_to_htg();
    lemma_known_huf_to_jmd();
    lemma_letters_concat(k6, known_huf_to_jmd());
    let k7 = k6 + known_huf_to_jmd();
    lemma_known_jod_to_kyd();
    lemma_letters_concat(k7, known_jod_to_kyd());
    let k8 = k7 + known_jod_to_kyd();
    lemma_known_kzt_to_lyd();
    lemma_letters_concat(k8, known_kzt_to_lyd());
    let k9 = k8 + known_kzt_to_lyd();
    lemma_known_mad_to_mur();
    lemma_letters_concat(k9, known_mad_to_mur());
    let k10 = k9 + known_mad_to_mur();
    lemma_known_mvr_to_npr();
    lemma_letters_concat(k10, known_mvr_to_npr());
    let k11 = k10 + known_mvr_to_npr();
    lemma_known_nzd_to_pyg();
    lemma_letters_concat(k11, known_nzd_to_pyg());
    let k12 = k11 + known_nzd_to_pyg();
    lemma_known_qar_to_sek();
    lemma_letters_concat(k12, known_qar_to_sek());
    let k13 = k12 + known_qar_to_sek();
    lemma_known_sgd_to_szl();
    lemma_letters_concat(k13, known_sgd_to_szl());
    let k14 = k13 + known_sgd_to_szl();
    lemma_known_thb_to_uah();
    lemma_letters_concat(k14, known_thb_to_uah());
    let k15 = k14 + known_thb_to_uah();
    lemma_known_ugx_to_wst();
    lemma_letters_concat(k15, known_ugx_to_wst());
    let k16 = k15 + known_ugx_to_wst();
    lemma_known_xaf_to_xrp();
    lemma_letters_concat(k16, known_xaf_to_xrp());
    let k17 = k16 + known_xaf_to_xrp();
    lemma_known_yer_to_zwl();
    lemma_letters_concat(k17, known_yer_to_zwl());
    let k18 = k17 + known_yer_to_zwl();
    assert(known() == k18);
}

/// Lists the known currencies from `ADA` to `AUD`.
fn list_known_ada_to_aud() -> (r: Vec<CurrencyCode>)
    ensures
        r@ == known_ada_to_aud(),
{
    let r = vec![
        ADA(),
        AED(),
        AFN(),
        ALL(),
        AMD(),
        ANG(),
        AOA(),
        ARB(),
        ARS(),
        AUD(),
    ];
    proof {
        reveal(known_ada_to_aud);
        assert(r@ =~= known_ada_to_aud());
    }
    r
}

/// Lists the known currencies from `AVAX` to `BMD`.
fn list_known_avax_to_bmd() -> (r: Vec<CurrencyCode>)
    ensures
        r@ == known_avax_to_bmd(),
{
    let r = vec![
        AVAX(),
        AWG(),
        AZN(),
        BAM(),
        BBD(),
        BDT(),
        BGN(),
        BHD(),
        BIF(),
        BMD(),
    ];
    proof {
        reveal(known_avax_to_bmd);
        assert(r@ =~= known_avax_to_bmd());
    }
    r
}

/// Lists the known currencies from `BNB` to `BYN`.
fn list_known_bnb_to_byn() -> (r: Vec<CurrencyCode>)
    ensures
        r@ == known_bnb_to_byn(),
{
    let r = vec![
        BNB(),
        BND(),
        BOB(),
        BRL(),
        BSD(),
        BTC(),
        BTN(),
        BUSD(),
        BWP(),
        BYN(),
    ];
    proof {
        reveal(known_bnb_to_byn);
        assert(r@ =~= known_bnb_to_byn());
    }
    r
}

/// Lists the known currencies from `BYR` to `CRC`.
fn list_known_byr_to_crc() -> (r: Vec<CurrencyCode>)
    ensures
        r@ == known_byr_to_crc(),
{
    let r = vec![
        BYR(),
        BZD(),
        CAD(),
        CDF(),
        CHF(),
        CLF(),
        CLP(),
        CNY(),
        COP(),
        CRC(),
    ];
    proof {
        reveal(known_byr_to_crc);
        assert(r@ =~= known_byr_to_crc());
    }
    r
}

/// Lists the known currencies from `CUC` to `DZD`.
fn list_known_cuc_to_dzd() -> (r: Vec<CurrencyCode>)
    ensures
        r@ == known_cuc_to_dzd(),
{
    let r = vec![
        CUC(),
        CUP(),
        CVE(),
        CZK(),
        DAI(),
        DJF(),
        DKK(),
        DOP(),
        DOT(),
        DZD(),
    ];
    proof {
        reveal(known_cuc_to_dzd);
        assert(r@ =~= known_cuc_to_dzd());
    }
    r
}

/// Lists the known currencies from `EGP` to `GGP`.
fn list_known_egp_to_ggp() -> (r: Vec<CurrencyCode>)
    ensures
        r@ == known_egp_to_ggp(),
{
    let r = vec![
        EGP(),
        ERN(),
        ETB(),
        ETH(),
        EUR(),
        FJD(),
        FKP(),
        GBP(),
        GEL(),
        GGP(),
    ];
    proof {
        reveal(known_egp_to_ggp);
        assert(r@ =~= known_egp_to_ggp());
    }
    r
}

/// Lists the known currencies from `GHS` to `HTG`.
fn list_known_ghs_to_htg() -> (r: Vec<CurrencyCode>)
    ensures
        r@ == known_ghs_to_htg(),
{
    let r = vec![
        GHS(),
        GIP(),
        GMD(),
        GNF(),
        GTQ(),
        GYD(),
        HKD(),
        HNL(),
        HRK(),
        HTG(),
    ];
    proof {
        reveal(known_ghs_to_htg);
        assert(r@ =~= known_ghs_to_htg());
    }
    r
}

/// Lists the known currencies from `HUF` to `JMD`.
fn list_known_huf_to_jmd() -> (r: Vec<CurrencyCode>)
    ensures
        r@ == known_huf_to_jmd(),
{
    let r = vec![
        HUF(),
        IDR(),
        ILS(),
        IMP(),
        INR(),
        IQD(),
        IRR(),
        ISK(),
        JEP(),
        JMD(),
    ];
    proof {
        reveal(known_huf_to_jmd);
        assert(r@ =~= known_huf_to_jmd());
    }
    r
}

/// Lists the known currencies from `JOD` to `KYD`.
fn list_known_jod_to_kyd() -> (r: Vec<CurrencyCode>)
    ensures
        r@ == known_jod_to_kyd(),
{
    let r = vec![
        JOD(),
        JPY(),
        KES(),
        KGS(),
        KHR(),
        KMF(),
        KPW(),
        KRW(),
        KWD(),
        KYD(),
    ];
    proof {
        reveal(known_jod_to_kyd);
        assert(r@ =~= known_jod_to_kyd());
    }
    r
}

/// Lists the known currencies from `KZT` to `LYD`.
fn list_known_kzt_to_lyd() -> (r: Vec<CurrencyCode>)
    ensures
        r@ == known_kzt_to_lyd(),
{
    let r = vec![
        KZT(),
        LAK(),
        LBP(),
        LKR(),
        LRD(),
        LSL(),
        LTC(),
        LTL(),
        LVL(),
        LYD(),
    ];
    proof {
        reveal(known_kzt_to_lyd);
        assert(r@ =~= known_kzt_to_lyd());
    }
    r
}

/// Lists the known currencies from `MAD` to `MUR`.
fn list_known_mad_to_mur() -> (r: Vec<CurrencyCode>)
    ensures
        r@ == known_mad_to_mur(),
{
    let r = vec![
        MAD(),
        MATIC(),
        MDL(),
        MGA(),
        MKD(),
        MMK(),
        MNT(),
        MOP(),
        MRO(),
        MUR(),
    ];
    proof {
        reveal(known_mad_to_mur);
        assert(r@ =~= known_mad_to_mur());
    }
    r
}

/// Lists the known currencies from `MVR` to `NPR`.
fn list_known_mvr_to_npr() -> (r: Vec<CurrencyCode>)
    ensures
        r@ == known_mvr_to_npr(),
{
    let r = vec![
        MVR(),
        MWK(),
        MXN(),
        MYR(),
        MZN(),
        NAD(),
        NGN(),
        NIO(),
        NOK(),
        NPR(),
    ];
    proof {
        reveal(known_mvr_to_npr);
        assert(r@ =~= known_mvr_to_npr());
    }
    r
}

/// Lists the known currencies from `NZD` to `PYG`.
fn list_known_nzd_to_pyg() -> (r: Vec<CurrencyCode>)
    ensures
        r@ == known_nzd_to_pyg(),
{
    let r = vec![
        NZD(),
        OMR(),
        OP(),
        PAB(),
        PEN(),
        PGK(),
        PHP(),
        PKR(),
        PLN(),
        PYG(),
    ];
    proof {
        reveal(known_nzd_to_pyg);
        assert(r@ =~= known_nzd_to_pyg());
    }
    r
}

/// Lists the known currencies from `QAR` to `SEK`.
fn list_known_qar_to_sek() -> (r: Vec<CurrencyCode>)
    ensures
        r@ == known_qar_to_sek(),
{
    let r = vec![
        QAR(),
        RON(),
        RSD(),
        RUB(),
        RWF(),
        SAR(),
        SBD(),
        SCR(),
        SDG(),
        SEK(),
    ];
    proof {
        reveal(known_qar_to_sek);
        assert(r@ =~= known_qar_to_sek());
    }
    r
}

/// Lists the known currencies from `SGD` to `SZL`.
fn list_known_sgd_to_szl() -> (r: Vec<CurrencyCode>)
    ensures
        r@ == known_sgd_to_szl(),
{
    let r = vec![
        SGD(),
        SHP(),
        SLL(),
        SOL(),
        SOS(),
        SRD(),
        STD(),
        SVC(),
        SYP(),
        SZL(),
    ];
    proof {
        reveal(known_sgd_to_szl);
        assert(r@ =~= known_sgd_to_szl());
    }
    r
}

/// Lists the known currencies from `THB` to `UAH`.
fn list_known_thb_to_uah() -> (r: Vec<CurrencyCode>)
    ensures
        r@ == known_thb_to_uah(),
{
    let r = vec![
        THB(),
        TJS(),
        TMT(),
        TND(),
        TOP(),
        TRY(),
        TTD(),
        TWD(),
        TZS(),
        UAH(),
    ];
    proof {
        reveal(known_thb_to_uah);
        assert(r@ =~= known_thb_to_uah());
    }
    r
}

/// Lists the known currencies from `UGX` to `WST`.
fn list_known_ugx_to_wst() -> (r: Vec<CurrencyCode>)
    ensures
        r@ == known_ugx_to_wst(),
{
    let r = vec![
        UGX(),
        USD(),
        USDC(),
        USDT(),
        UYU(),
        UZS(),
        VEF(),
        VND(),
        VUV(),
        WST(),
    ];
    proof {
        reveal(known_ugx_to_wst);
        assert(r@ =~= known_ugx_to_wst());
    }
    r
}

/// Lists the known currencies from `XAF` to `XRP`.
fn list_known_xaf_to_xrp() -> (r: Vec<CurrencyCode>)
    ensures
        r@ == known_xaf_to_xrp(),
{
    let r = vec![
        XAF(),
        XAG(),
        XAU(),
        XCD(),
        XDR(),
        XOF(),
        XPD(),
        XPF(),
        XPT(),
        XRP(),
    ];
    proof {
        reveal(known_xaf_to_xrp);
        assert(r@ =~= known_xaf_to_xrp());
    }
    r
}

/// Lists the known currencies from `YER` to `ZWL`.
fn list_known_yer_to_zwl() -> (r: Vec<CurrencyCode>)
    ensures
        r@ == known_yer_to_zwl(),
{
    let r = vec![
        YER(),
        ZAR(),
        ZMK(),
        ZMW(),
        ZWL(),
    ];
    proof {
        reveal(known_yer_to_zwl);
        assert(r@ =~= known_yer_to_zwl());
    }
    r
}

/// Lists the known currencies, in the order of their names.
pub fn array() -> (r: Vec<CurrencyCode>)
    ensures
        r@ == known(),
        r@.len() == LEN,
{
    let mut r = list_known_ada_to_aud();
    let mut more = list_known_avax_to_bmd();
    r.append(&mut more);
    let mut more = list_known_bnb_to_byn();
    r.append(&mut more);
    let mut more = list_known_byr_to_crc();
    r.append(&mut more);
    let mut more = list_known_cuc_to_dzd();
    r.append(&mut more);
    let mut more = list_known_egp_to_ggp();
    r.append(&mut more);
    let mut more = list_known_ghs_to_htg();
    r.append(&mut more);
    let mut more = list_known_huf_to_jmd();
    r.append(&mut more);
    let mut more = list_known_jod_to_kyd();
    r.append(&mut more);
    let mut more = list_known_kzt_to_lyd();
    r.append(&mut more);
    let mut more = list_known_mad_to_mur();
    r.append(&mut more);
    let mut more = list_known_mvr_to_npr();
    r.append(&mut more);
    let mut more = list_known_nzd_to_pyg();
    r.append(&mut more);
    let mut more = list_known_qar_to_sek();
    r.append(&mut more);
    let mut more = list_known_sgd_to_szl();
    r.append(&mut more);
    let mut more = list_known_thb_to_uah();
    r.append(&mut more);
    let mut more = list_known_ugx_to_wst();
    r.append(&mut more);
    let mut more = list_known_xaf_to_xrp();
    r.append(&mut more);
    let mut more = list_known_yer_to_zwl();
    r.append(&mut more);
    proof {
        lemma_known();
    }
    r
}

} // verus!

//! Ledger addresses: parsing, canonical hex text, and the contract-address
//! tables.
//!
//! An address is twenty bytes.  Its text form is forty hexadecimal digits,
//! optionally prefixed with `0x`; the canonical form produced here is `0x`
//! followed by forty lowercase digits.

use vstd::prelude::*;
use crate::defines::{NetworkType, QueryError, SupportedContract, SupportedContractType};

verus! {

/// A twenty-byte ledger address.
#[derive(Debug, Clone, PartialEq)]
pub struct EthAddress {
    pub bytes: Vec<u8>,
}

impl EthAddress {
    /// An address is exactly twenty bytes.
    pub open spec fn wf(self) -> bool {
        self.bytes@.len() == 20
    }
}

/// A character is a hexadecimal digit.
pub open spec fn spec_is_hex_digit(c: char) -> bool {
    (48 <= c as u32 <= 57) || (97 <= c as u32 <= 102) || (65 <= c as u32 <= 70)
}

/// The numeric value of one hexadecimal digit character.
pub open spec fn spec_hex_val(c: char) -> nat {
    if 48 <= c as u32 <= 57 {
        (c as u32 - 48) as nat
    } else if 97 <= c as u32 <= 102 {
        (c as u32 - 87) as nat
    } else {
        (c as u32 - 55) as nat
    }
}

/// The lowercase character for one hexadecimal digit value below sixteen.
pub open spec fn spec_hex_char(d: nat) -> char {
    if d < 10 {
        crate::digits::spec_digit_char(d)
    } else if d == 10 {
        'a'
    } else if d == 11 {
        'b'
    } else if d == 12 {
        'c'
    } else if d == 13 {
        'd'
    } else if d == 14 {
        'e'
    } else {
        'f'
    }
}

/// Address text with any `0x` prefix removed.
pub open spec fn spec_hex_body(s: Seq<char>) -> Seq<char> {
    if s.len() >= 2 && s[0] == '0' && s[1] == 'x' {
        s.skip(2)
    } else {
        s
    }
}

/// Valid address text: exactly forty hexadecimal digits after any `0x`
/// prefix.
pub open spec fn spec_valid_address_text(s: Seq<char>) -> bool {
    let b = spec_hex_body(s);
    b.len() == 40 && forall|i: int| 0 <= i < 40 ==> spec_is_hex_digit(#[trigger] b[i])
}

/// The bytes that valid address text denotes, two digits per byte, most
/// significant digit first.
pub open spec fn spec_address_bytes(s: Seq<char>) -> Seq<u8> {
    let b = spec_hex_body(s);
    Seq::new((b.len() / 2) as nat, |i: int| (spec_hex_val(b[2 * i]) * 16 + spec_hex_val(
        b[2 * i + 1],
    )) as u8)
}

/// The two lowercase digits of one byte.
pub open spec fn spec_hex_byte(v: u8) -> Seq<char> {
    seq![spec_hex_char((v / 16) as nat), spec_hex_char((v % 16) as nat)]
}

/// The lowercase digits of a byte string, two per byte.
pub open spec fn spec_hex_chars(b: Seq<u8>) -> Seq<char>
    decreases b.len(),
{
    if b.len() == 0 {
        Seq::<char>::empty()
    } else {
        spec_hex_chars(b.drop_last()) + spec_hex_byte(b.last())
    }
}

/// The canonical text of an address: `0x` and the lowercase digits of its
/// bytes.
pub open spec fn spec_address_hex(b: Seq<u8>) -> Seq<char> {
    seq!['0', 'x'] + spec_hex_chars(b)
}

/// The numeric value of one hexadecimal digit character, or nothing for any
/// other character.
fn hex_digit_val(c: char) -> (r: Option<u8>)
    ensures
        match r {
            Option::Some(v) => spec_is_hex_digit(c) && v as nat == spec_hex_val(c) && v < 16,
            Option::None => !spec_is_hex_digit(c),
        },
{
    let u = c as u32;
    if 48 <= u && u <= 57 {
        Option::Some((u - 48) as u8)
    } else if 97 <= u && u <= 102 {
        Option::Some((u - 87) as u8)
    } else if 65 <= u && u <= 70 {
        Option::Some((u - 55) as u8)
    } else {
        Option::None
    }
}

/// The text of one hexadecimal digit value below sixteen, lowercase.
fn hex_char_str(d: u8) -> (r: &'static str)
    requires
        d < 16,
    ensures
        r@ == seq![spec_hex_char(d as nat)],
{
    let r: &'static str = if d == 0 {
        proof { reveal_strlit("0"); }
        "0"
    } else if d == 1 {
        proof { reveal_strlit("1"); }
        "1"
    } else if d == 2 {
        proof { reveal_strlit("2"); }
        "2"
    } else if d == 3 {
        proof { reveal_strlit("3"); }
        "3"
    } else if d == 4 {
        proof { reveal_strlit("4"); }
        "4"
    } else if d == 5 {
        proof { reveal_strlit("5"); }
        "5"
    } else if d == 6 {
        proof { reveal_strlit("6"); }
        "6"
    } else if d == 7 {
        proof { reveal_strlit("7"); }
        "7"
    } else if d == 8 {
        proof { reveal_strlit("8"); }
        "8"
    } else if d == 9 {
        proof { reveal_strlit("9"); }
        "9"
    } else if d == 10 {
        proof { reveal_strlit("a"); }
        "a"
    } else if d == 11 {
        proof { reveal_strlit("b"); }
        "b"
    } else if d == 12 {
        proof { reveal_strlit("c"); }
        "c"
    } else if d == 13 {
        proof { reveal_strlit("d"); }
        "d"
    } else if d == 14 {
        proof { reveal_strlit("e"); }
        "e"
    } else {
        proof { reveal_strlit("f"); }
        "f"
    };
    proof {
        assert(r@ =~= seq![spec_hex_char(d as nat)]);
    }
    r
}

/// Parses address text.  Succeeds exactly on forty hexadecimal digits after
/// an optional `0x` prefix; everything else is an invalid address.
pub fn parse_eth_address(s: &str) -> (r: Result<EthAddress, QueryError>)
    ensures
        match r {
            Result::Ok(a) => spec_valid_address_text(s@) && a.wf() && a.bytes@
                == spec_address_bytes(s@),
            Result::Err(e) => !spec_valid_address_text(s@) && e == QueryError::InvalidAddress,
        },
{
    let len = s.unicode_len();
    let start: usize = if len >= 2 && s.get_char(0) == '0' && s.get_char(1) == 'x' {
        2
    } else {
        0
    };
    proof {
        if start == 0 {
            assert(spec_hex_body(s@) =~= s@);
        } else {
            assert(spec_hex_body(s@) =~= s@.skip(2));
        }
    }
    let ghost body = spec_hex_body(s@);
    if len - start != 40 {
        return Result::Err(QueryError::InvalidAddress);
    }
    let mut bytes: Vec<u8> = Vec::new();
    let mut k: usize = 0;
    while k < 20
        invariant
            body == spec_hex_body(s@),
            body =~= s@.skip(start as int),
            start + 40 == len,
            len == s@.len(),
            k <= 20,
            bytes@.len() == k,
            forall|m: int| 0 <= m < 2 * k ==> spec_is_hex_digit(#[trigger] body[m]),
            forall|m: int| 0 <= m < k ==> bytes@[m] == spec_address_bytes(s@)[m],
        decreases 20 - k,
    {
        let c1 = s.get_char(start + 2 * k);
        let c2 = s.get_char(start + 2 * k + 1);
        proof {
            assert(body[2 * k as int] == s@[start as int + 2 * k as int]);
            assert(body[2 * k as int + 1] == s@[start as int + 2 * k as int + 1]);
        }
        let v1 = match hex_digit_val(c1) {
            Option::Some(v) => v,
            Option::None => {
                return Result::Err(QueryError::InvalidAddress);
            },
        };
        let v2 = match hex_digit_val(c2) {
            Option::Some(v) => v,
            Option::None => {
                return Result::Err(QueryError::InvalidAddress);
            },
        };
        bytes.push(v1 * 16 + v2);
        proof {
            assert(bytes@[k as int] == spec_address_bytes(s@)[k as int]);
        }
        k = k + 1;
    }
    let a = EthAddress { bytes };
    proof {
        assert(a.bytes@ =~= spec_address_bytes(s@));
    }
    Result::Ok(a)
}

/// The canonical text of an address: `0x` and forty lowercase digits.
pub fn eth_address_hex(a: &EthAddress) -> (s: String)
    ensures
        s@ == spec_address_hex(a.bytes@),
{
    let mut s = String::from_str("0x");
    proof {
        reveal_strlit("0x");
        assert(a.bytes@.take(0) =~= Seq::<u8>::empty());
        assert(s@ =~= seq!['0', 'x'] + spec_hex_chars(a.bytes@.take(0)));
    }
    let mut k: usize = 0;
    let n = a.bytes.len();
    while k < n
        invariant
            k <= n,
            n == a.bytes@.len(),
            s@ == seq!['0', 'x'] + spec_hex_chars(a.bytes@.take(k as int)),
        decreases n - k,
    {
        let v = a.bytes[k];
        s.append(hex_char_str(v / 16));
        s.append(hex_char_str(v % 16));
        proof {
            assert(a.bytes@.take(k as int + 1).drop_last() =~= a.bytes@.take(k as int));
            assert(a.bytes@.take(k as int + 1).last() == a.bytes@[k as int]);
            assert(s@ =~= seq!['0', 'x'] + spec_hex_chars(a.bytes@.take(k as int + 1)));
        }
        k = k + 1;
    }
    proof {
        assert(a.bytes@.take(n as int) =~= a.bytes@);
    }
    s
}

/// The bytes of the NamiLand game-item contract on the Goerli test network.
pub open spec fn spec_goerli_namiland_nft_address() -> Seq<u8> {
    seq![
        0x5Fu8, 0xaB, 0x72, 0x1a, 0x3f, 0xa1, 0x3c, 0x02, 0x19, 0xEB, 0x24, 0xC1, 0x21, 0xf9,
        0xF6, 0x48, 0x2f, 0x64, 0xf2, 0x74,
    ]
}

/// The contract address for a contract kind on a network.  Only the
/// NamiLand game-item contract on the Goerli test network is deployed; the
/// Ethereum main network and the BSC networks are not served, and no other
/// contract kind is deployed on Goerli.
pub fn get_contract_address(
    contract_type: SupportedContractType,
    network_type: NetworkType,
) -> (r: Result<EthAddress, QueryError>)
    ensures
        match r {
            Result::Ok(a) => network_type == NetworkType::GoerliTestnet && contract_type
                == SupportedContractType::NamiLandGameItemNFT && a.wf() && a.bytes@
                == spec_goerli_namiland_nft_address(),
            Result::Err(e) => if network_type != NetworkType::GoerliTestnet {
                e == QueryError::UnsupportedNetwork
            } else {
                contract_type != SupportedContractType::NamiLandGameItemNFT && e
                    == QueryError::UnsupportedContract
            },
        },
{
    if !(matches!(network_type, NetworkType::GoerliTestnet)) {
        return Result::Err(QueryError::UnsupportedNetwork);
    }
    match contract_type {
        SupportedContractType::NamiLandGameItemNFT => {
            let mut bytes: Vec<u8> = Vec::new();
            bytes.push(0x5F);
            bytes.push(0xaB);
            bytes.push(0x72);
            bytes.push(0x1a);
            bytes.push(0x3f);
            bytes.push(0xa1);
            bytes.push(0x3c);
            bytes.push(0x02);
            bytes.push(0x19);
            bytes.push(0xEB);
            bytes.push(0x24);
            bytes.push(0xC1);
            bytes.push(0x21);
            bytes.push(0xf9);
            bytes.push(0xF6);
            bytes.push(0x48);
            bytes.push(0x2f);
            bytes.push(0x64);
            bytes.push(0xf2);
            bytes.push(0x74);
            let a = EthAddress { bytes };
            proof {
                assert(a.bytes@ =~= spec_goerli_namiland_nft_address());
            }
            Result::Ok(a)
        },
        _ => Result::Err(QueryError::UnsupportedContract),
    }
}

/// The legacy contract-address table on a network, as text.  The table
/// serves the BSC networks only.
pub open spec fn spec_manager_address(c: SupportedContract, n: NetworkType) -> Option<Seq<char>> {
    match n {
        NetworkType::BSCMainNetwork => Option::Some(
            match c {
                SupportedContract::BUSDTokenContract => "0x2D6C8229E1e14F4D35037F977e5486EE1Bfa0190"@,
                SupportedContract::NECOTokenContract => "0xd23891FC1A515A88C571064637502e3766819e2d"@,
                SupportedContract::NFISHTokenContract => "0xa0c72B1F89531b6BD61C640d03Bd4507773C0cfC"@,
                SupportedContract::NecoNFTContract => "0xEA5534Bac1291676595223579517D35Ad9C382eE"@,
                SupportedContract::StakeNecoForFeeContract => "0x8bfB9140658632239f8a1450955cB5bD7Ce586ED"@,
            },
        ),
        NetworkType::BSCTestNetwork => Option::Some(
            match c {
                SupportedContract::BUSDTokenContract => "0x2D6C8229E1e14F4D35037F977e5486EE1Bfa0190"@,
                SupportedContract::NECOTokenContract => "0xafA98d54481a9aE468AB21b9268609fF50795795"@,
                SupportedContract::NFISHTokenContract => "0xa0c72B1F89531b6BD61C640d03Bd4507773C0cfC"@,
                SupportedContract::NecoNFTContract => "0xEB1C424A31490A9B141126838a3c625647f22BDc"@,
                SupportedContract::StakeNecoForFeeContract => "0xa4329D80BE20813CbfeF5B2e593CA2893441E2dd"@,
            },
        ),
        _ => Option::None,
    }
}

/// The legacy contract-address table.  It knows the BSC deployments of each
/// contract; the Ethereum networks have none.
#[derive(Debug, PartialEq, Eq, Structural, Clone, Copy)]
pub struct AddressManager {}

impl Default for AddressManager {
    fn default() -> (r: Self)
        ensures
            r == (AddressManager {  }),
    {
        AddressManager {  }
    }
}

impl AddressManager {
    /// The address text of a contract on a network, from the table above.
    pub fn get_contract_address(
        &self,
        contract_type: SupportedContract,
        network_type: NetworkType,
    ) -> (r: Result<&'static str, QueryError>)
        ensures
            match r {
                Result::Ok(s) => spec_manager_address(contract_type, network_type)
                    == Option::Some(s@),
                Result::Err(e) => spec_manager_address(contract_type, network_type)
                    == Option::<Seq<char>>::None && e == QueryError::UnsupportedNetwork,
            },
    {
        match network_type {
            NetworkType::BSCMainNetwork => Result::Ok(
                match contract_type {
                    SupportedContract::BUSDTokenContract => "0x2D6C8229E1e14F4D35037F977e5486EE1Bfa0190",
                    SupportedContract::NECOTokenContract => "0xd23891FC1A515A88C571064637502e3766819e2d",
                    SupportedContract::NFISHTokenContract => "0xa0c72B1F89531b6BD61C640d03Bd4507773C0cfC",
                    SupportedContract::NecoNFTContract => "0xEA5534Bac1291676595223579517D35Ad9C382eE",
                    SupportedContract::StakeNecoForFeeContract => "0x8bfB9140658632239f8a1450955cB5bD7Ce586ED",
                },
            ),
            NetworkType::BSCTestNetwork => Result::Ok(
                match contract_type {
                    SupportedContract::BUSDTokenContract => "0x2D6C8229E1e14F4D35037F977e5486EE1Bfa0190",
                    SupportedContract::NECOTokenContract => "0xafA98d54481a9aE468AB21b9268609fF50795795",
                    SupportedContract::NFISHTokenContract => "0xa0c72B1F89531b6BD61C640d03Bd4507773C0cfC",
                    SupportedContract::NecoNFTContract => "0xEB1C424A31490A9B141126838a3c625647f22BDc",
                    SupportedContract::StakeNecoForFeeContract => "0xa4329D80BE20813CbfeF5B2e593CA2893441E2dd",
                },
            ),
            _ => Result::Err(QueryError::UnsupportedNetwork),
        }
    }
}

} // verus!

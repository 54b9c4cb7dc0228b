//! Wire encoding of the swap instruction handed to the exchange program:
//! a tag byte followed by two little-endian 64-bit amounts.

use vstd::prelude::*;

use crate::error::LucraErrorCode;

verus! {

/// The swap request a harvest routes to the pooled exchange.
#[derive(Clone, Copy, Debug, PartialEq, Eq, Structural)]
pub struct RaydiumSwap {
    pub instruction: u8,
    pub amount_in: u64,
    pub min_amount_out: u64,
}

impl RaydiumSwap {
    /// Encoded length: one tag byte and two 64-bit amounts.
    pub const LEN: usize = 17;

    /// The exact wire form: tag, then each amount in little-endian order.
    pub open spec fn spec_bytes(self) -> Seq<u8> {
        seq![
            self.instruction,
            (self.amount_in as int % 256) as u8,
            (self.amount_in as int / 256 % 256) as u8,
            (self.amount_in as int / 65536 % 256) as u8,
            (self.amount_in as int / 16777216 % 256) as u8,
            (self.amount_in as int / 4294967296 % 256) as u8,
            (self.amount_in as int / 1099511627776 % 256) as u8,
            (self.amount_in as int / 281474976710656 % 256) as u8,
            (self.amount_in as int / 72057594037927936 % 256) as u8,
            (self.min_amount_out as int % 256) as u8,
            (self.min_amount_out as int / 256 % 256) as u8,
            (self.min_amount_out as int / 65536 % 256) as u8,
            (self.min_amount_out as int / 16777216 % 256) as u8,
            (self.min_amount_out as int / 4294967296 % 256) as u8,
            (self.min_amount_out as int / 1099511627776 % 256) as u8,
            (self.min_amount_out as int / 281474976710656 % 256) as u8,
            (self.min_amount_out as int / 72057594037927936 % 256) as u8,
        ]
    }

    /// Size of the encoded request.
    pub fn get_size(&self) -> (r: usize)
        ensures
            r == RaydiumSwap::LEN,
            r == self.spec_bytes().len(),
    {
        17
    }

    /// Encode into a caller-provided buffer, which must already have the
    /// encoded length.
    pub fn pack(&self, output: &mut Vec<u8>) -> (r: Result<usize, LucraErrorCode>)
        ensures
            r is Ok <==> old(output)@.len() == RaydiumSwap::LEN,
            r is Ok ==> r->Ok_0 == RaydiumSwap::LEN && final(output)@ == self.spec_bytes(),
            r is Err ==> *final(output) == *old(output) && r->Err_0
                == LucraErrorCode::InvalidAccountInput,
    {
        if output.len() != 17 {
            return Err(LucraErrorCode::InvalidAccountInput);
        }
        let encoded = self.encode();
        *output = encoded;
        Ok(17)
    }

    /// Encode into a fresh buffer.
    pub fn to_vec(&self) -> (r: Result<Vec<u8>, LucraErrorCode>)
        ensures
            r is Ok,
            r->Ok_0@ == self.spec_bytes(),
    {
        Ok(self.encode())
    }

    /// The encoded request.
    pub fn encode(&self) -> (r: Vec<u8>)
        ensures
            r@ == self.spec_bytes(),
            r@.len() == RaydiumSwap::LEN,
    {
        let mut out: Vec<u8> = Vec::new();
        out.push(self.instruction);
        push_le_u64(&mut out, self.amount_in);
        push_le_u64(&mut out, self.min_amount_out);
        proof {
            assert(out@ =~= self.spec_bytes());
        }
        out
    }
}

/// Append the eight little-endian bytes of `x`.
fn push_le_u64(out: &mut Vec<u8>, x: u64)
    ensures
        final(out)@ == old(out)@ + seq![
            (x as int % 256) as u8,
            (x as int / 256 % 256) as u8,
            (x as int / 65536 % 256) as u8,
            (x as int / 16777216 % 256) as u8,
            (x as int / 4294967296 % 256) as u8,
            (x as int / 1099511627776 % 256) as u8,
            (x as int / 281474976710656 % 256) as u8,
            (x as int / 72057594037927936 % 256) as u8,
        ],
{
    out.push((x % 256) as u8);
    out.push((x / 256 % 256) as u8);
    out.push((x / 65536 % 256) as u8);
    out.push((x / 16777216 % 256) as u8);
    out.push((x / 4294967296 % 256) as u8);
    out.push((x / 1099511627776 % 256) as u8);
    out.push((x / 281474976710656 % 256) as u8);
    out.push((x / 72057594037927936 % 256) as u8);
    proof {
        assert(out@ =~= old(out)@ + seq![
            (x as int % 256) as u8,
            (x as int / 256 % 256) as u8,
            (x as int / 65536 % 256) as u8,
            (x as int / 16777216 % 256) as u8,
            (x as int / 4294967296 % 256) as u8,
            (x as int / 1099511627776 % 256) as u8,
            (x as int / 281474976710656 % 256) as u8,
            (x as int / 72057594037927936 % 256) as u8,
        ]);
    }
}

} // verus!

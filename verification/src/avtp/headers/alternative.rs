use vstd::prelude::*;

use crate::avtp::headers::common::{CommonHeader, common_fits, common_high};
use crate::avtp::subtype::subtype_byte;
use crate::io::enc_dec::IoError;

verus! {

/// Header used by formats that follow the 12-bit common header with a layout of
/// their own, held here as a dynamic payload.
///
/// The payload holds the bits that follow the common header, padded with four zero
/// bits at its end so that it fills whole bytes.
#[derive(Debug, Clone, PartialEq, Eq)]
pub struct AlternativeHeader {
    /// The preceding common header.
    pub common: CommonHeader,
    /// The format-specific bits after the common header, plus four padding bits.
    pub alternative_data_payload: Vec<u8>,
}

/// Model of [`AlternativeHeader`].
pub struct AlternativeHeaderView {
    pub common: CommonHeader,
    pub alternative_data_payload: Seq<u8>,
}

impl View for AlternativeHeader {
    type V = AlternativeHeaderView;

    open spec fn view(&self) -> AlternativeHeaderView {
        AlternativeHeaderView {
            common: self.common,
            alternative_data_payload: self.alternative_data_payload@,
        }
    }
}

/// Whether the payload ends in the four zero padding bits (or is empty).
pub open spec fn alternative_padding_ok(h: AlternativeHeaderView) -> bool {
    let p = h.alternative_data_payload;
    p.len() == 0 || p[p.len() - 1] % 16 == 0
}

/// The wire bytes of an alternative header: the common header's 12 bits followed
/// by the payload bits without their padding nibble (or four zero bits for an
/// empty payload).
pub open spec fn alternative_header_bytes(h: AlternativeHeaderView) -> Seq<u8> {
    let p = h.alternative_data_payload;
    let sb = subtype_byte(h.common.subtype);
    let hi = common_high(h.common);
    if p.len() == 0 {
        seq![sb, hi as u8]
    } else {
        seq![sb, (hi + p[0] / 16) as u8] + Seq::new(
            (p.len() - 1) as nat,
            |i: int| ((p[i] % 16) * 16 + p[i + 1] / 16) as u8,
        )
    }
}

impl AlternativeHeader {
    /// Appends the wire bytes of this header; fails without writing when the
    /// version does not fit its 3 bits.
    pub fn encode(&self, out: &mut Vec<u8>) -> (r: Result<(), IoError>)
        requires
            alternative_padding_ok(self@),
        ensures
            r is Ok <==> common_fits(self.common),
            r is Ok ==> final(out)@ == old(out)@ + alternative_header_bytes(self@),
            r is Err ==> r == Err::<(), IoError>(IoError::InvalidInput) && final(out)@ == old(out)@,
    {
        if self.common.version >= 8 {
            return Err(IoError::InvalidInput);
        }
        let p = &self.alternative_data_payload;
        let hi = self.common.high_nibble();
        out.push(self.common.subtype.as_u8());
        if p.len() == 0 {
            out.push(hi);
            assert(final(out)@ =~= old(out)@ + alternative_header_bytes(self@));
            return Ok(());
        }
        out.push(hi + p[0] / 16);
        let ghost start = old(out)@ + seq![subtype_byte(self.common.subtype), (common_high(self.common) + p@[0] / 16) as u8];
        let ghost tail = Seq::new(
            (p@.len() - 1) as nat,
            |i: int| ((p@[i] % 16) * 16 + p@[i + 1] / 16) as u8,
        );
        assert(out@ =~= start);
        let mut k: usize = 0;
        while k < p.len() - 1
            invariant
                k + 1 <= p@.len(),
                out@ == start + tail.subrange(0, k as int),
                tail.len() == p@.len() - 1,
                forall|i: int| 0 <= i < tail.len() ==> tail[i] == ((p@[i] % 16) * 16 + p@[i + 1] / 16) as u8,
            decreases p@.len() - k,
        {
            out.push((p[k] % 16) * 16 + p[k + 1] / 16);
            k += 1;
            assert(out@ =~= start + tail.subrange(0, k as int));
        }
        assert(tail.subrange(0, k as int) =~= tail);
        assert(final(out)@ =~= old(out)@ + alternative_header_bytes(self@));
        Ok(())
    }
}

} // verus!

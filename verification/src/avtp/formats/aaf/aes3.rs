use vstd::prelude::*;

use crate::avtp::formats::aaf::common::{AafFormat, AafSpecificData, AafSpecificDataView};

verus! {

/// Errors of interpreting AAF format-specific data as AES3.
#[derive(Debug, Clone, Copy, PartialEq, Eq)]
pub enum InvalidAes3Aaf {
    /// The AAF format field does not name the AES3 format.
    NonAes3Format(AafFormat),
}

/// AES3 formatted AAF data, held as the raw format-specific data.
#[derive(Debug, PartialEq, Eq)]
pub struct AafAes3(AafSpecificData);

/// Whether raw data can be held as AES3 data: the AES3 format and a 3-bit
/// `asfd` field.
pub open spec fn aes3_valid(d: AafSpecificDataView) -> bool {
    &&& d.format == AafFormat::AES3_32Bit
    &&& d.asfd < 8
    &&& d.aaf_format_specific_data_1.len() == 3
}

impl View for AafAes3 {
    type V = AafSpecificDataView;

    closed spec fn view(&self) -> AafSpecificDataView {
        self.0@
    }
}

impl AafAes3 {
    #[verifier::type_invariant]
    pub(crate) closed spec fn valid(self) -> bool {
        aes3_valid(self.0@)
    }

    /// Every value holds valid AES3 data.
    pub(crate) fn lemma_valid(&self)
        ensures
            aes3_valid(self@),
    {
        proof {
            use_type_invariant(self);
        }
    }

    /// Holds raw data of the AES3 format as AES3 data.
    pub(crate) fn from_specific(data: AafSpecificData) -> (r: Result<Self, InvalidAes3Aaf>)
        requires
            data.asfd < 8,
        ensures
            data.format == AafFormat::AES3_32Bit ==> (r matches Ok(a) && a@ == data@),
            data.format != AafFormat::AES3_32Bit ==> r == Err::<Self, InvalidAes3Aaf>(
                InvalidAes3Aaf::NonAes3Format(data.format),
            ),
    {
        match data.format {
            AafFormat::User
            | AafFormat::Float32Bit
            | AafFormat::Int32Bit
            | AafFormat::Int24Bit
            | AafFormat::Int16Bit => return Err(InvalidAes3Aaf::NonAes3Format(data.format)),
            AafFormat::AES3_32Bit => {},
        }
        Ok(Self(data))
    }

    /// Gives back the raw format-specific data.
    pub(crate) fn into_specific(self) -> (r: AafSpecificData)
        ensures
            r@ == self@,
            aes3_valid(r@),
    {
        proof {
            use_type_invariant(&self);
        }
        self.0
    }

    /// A copy of this data.
    pub fn duplicate(&self) -> (r: Self)
        ensures
            r@ == self@,
    {
        proof {
            use_type_invariant(self);
        }
        let payload = crate::io::bytes::copy_range(
            self.0.aaf_format_specific_payload.as_slice(),
            0,
            self.0.aaf_format_specific_payload.len(),
        );
        assert(payload@ =~= self.0.aaf_format_specific_payload@);
        let r = AafAes3(
            AafSpecificData {
                format: self.0.format,
                aaf_format_specific_data_1: self.0.aaf_format_specific_data_1,
                asfd: self.0.asfd,
                aaf_format_specific_data_2: self.0.aaf_format_specific_data_2,
                aaf_format_specific_payload: payload,
            },
        );
        assert(r.0@ == self.0@);
        r
    }

    /// A view of the held payload bytes.
    pub fn payload_slice(&self) -> (r: &[u8])
        ensures
            r@ == self@.aaf_format_specific_payload,
    {
        self.0.aaf_format_specific_payload.as_slice()
    }
}

impl Clone for AafAes3 {
    fn clone(&self) -> (r: Self)
        ensures
            r@ == self@,
    {
        self.duplicate()
    }
}

} // verus!

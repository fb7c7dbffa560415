//! The threshold data object.
//!
//! A threshold carries its value type (binary or range), the element type of
//! its values, and five signed 32-bit values: the single threshold, the
//! lower and upper bounds, and the TRUE and FALSE output values. Attributes
//! are read and written through the generic attribute protocol; a request
//! whose size differs from the four bytes the engine declares for these
//! attributes fails with an invalid-type error rather than read or write
//! out of bounds.

use crate::attribute::attribute_size;
use crate::attribute::VX_THRESHOLD_DATA_TYPE;
use crate::attribute::VX_THRESHOLD_FALSE_VALUE;
use crate::attribute::VX_THRESHOLD_THRESHOLD_LOWER;
use crate::attribute::VX_THRESHOLD_THRESHOLD_UPPER;
use crate::attribute::VX_THRESHOLD_THRESHOLD_VALUE;
use crate::attribute::VX_THRESHOLD_TRUE_VALUE;
use crate::attribute::VX_THRESHOLD_TYPE;
use crate::checkstatus::CheckStatus;
use crate::name::GetName;
use crate::name::SetName;
use crate::reference::AsVxReference;
use crate::reference::RefKind;
use crate::reference::VxReference;
use crate::release::Release;
use crate::status::VxError;
use crate::status::VxStatus;
use vstd::prelude::*;

verus! {

/// A threshold data object, owned by the context that created it.
#[derive(Debug, Eq, PartialEq, Clone)]
pub struct VxThreshold {
    /// The opaque handle; zero marks a released wrapper.
    pub raw: u64,
    /// The handle of the owning context.
    pub context: u64,
    /// The value type of the threshold: binary or range.
    pub thresh_type: i32,
    /// The element type of the threshold's values.
    pub data_type: u32,
    /// The value of the single threshold.
    pub value: i32,
    /// The value of the lower threshold.
    pub lower: i32,
    /// The value of the upper threshold.
    pub upper: i32,
    /// The value reported for pixels that pass the threshold.
    pub true_value: i32,
    /// The value reported for pixels that fail the threshold.
    pub false_value: i32,
    /// The diagnostic name, if any.
    pub name: Option<String>,
}

/// Whether a threshold attribute id names one of the writable values.
pub open spec fn threshold_attribute_writable(attr: i32) -> bool {
    attr == VX_THRESHOLD_THRESHOLD_VALUE || attr == VX_THRESHOLD_THRESHOLD_LOWER
        || attr == VX_THRESHOLD_THRESHOLD_UPPER || attr == VX_THRESHOLD_TRUE_VALUE
        || attr == VX_THRESHOLD_FALSE_VALUE
}

/// Whether a threshold attribute id names one of the readable values.
pub open spec fn threshold_attribute_readable(attr: i32) -> bool {
    threshold_attribute_writable(attr) || attr == VX_THRESHOLD_TYPE
        || attr == VX_THRESHOLD_DATA_TYPE
}

/// The value a threshold reports for a readable attribute id.
pub open spec fn threshold_attribute_value(t: VxThreshold, attr: i32) -> i32
    recommends
        threshold_attribute_readable(attr),
{
    if attr == VX_THRESHOLD_TYPE {
        t.thresh_type
    } else if attr == VX_THRESHOLD_THRESHOLD_VALUE {
        t.value
    } else if attr == VX_THRESHOLD_THRESHOLD_LOWER {
        t.lower
    } else if attr == VX_THRESHOLD_THRESHOLD_UPPER {
        t.upper
    } else if attr == VX_THRESHOLD_TRUE_VALUE {
        t.true_value
    } else if attr == VX_THRESHOLD_FALSE_VALUE {
        t.false_value
    } else {
        t.data_type as i32
    }
}

/// The threshold that results from writing a writable attribute.
pub open spec fn threshold_with_attribute(t: VxThreshold, attr: i32, value: i32) -> VxThreshold
    recommends
        threshold_attribute_writable(attr),
{
    if attr == VX_THRESHOLD_THRESHOLD_VALUE {
        VxThreshold { value, ..t }
    } else if attr == VX_THRESHOLD_THRESHOLD_LOWER {
        VxThreshold { lower: value, ..t }
    } else if attr == VX_THRESHOLD_THRESHOLD_UPPER {
        VxThreshold { upper: value, ..t }
    } else if attr == VX_THRESHOLD_TRUE_VALUE {
        VxThreshold { true_value: value, ..t }
    } else {
        VxThreshold { false_value: value, ..t }
    }
}

impl VxThreshold {
    /// Whether the handle is the null handle.
    pub fn is_null(&self) -> (r: bool)
        ensures
            r <==> self.raw == 0,
    {
        self.raw == 0
    }

    /// Writes one of the writable threshold attributes as a signed 32-bit
    /// value.
    ///
    /// The request fails with `InvalidReference` on a released threshold,
    /// with `NotSupported` for an id that is not a writable threshold
    /// attribute (the read-only ids among them), and with `InvalidType`
    /// when the given size differs from the four bytes the engine declares,
    /// each leaving the threshold unchanged.
    pub fn set_attribute(&mut self, attribute: i32, value: i32, size: usize) -> (r: Result<
        (),
        VxError,
    >)
        ensures
            old(self).raw == 0 ==> r == Err::<(), VxError>(VxError::InvalidReference)
                && *final(self) == *old(self),
            old(self).raw != 0 && !threshold_attribute_writable(attribute) ==> r
                == Err::<(), VxError>(VxError::NotSupported) && *final(self) == *old(self),
            old(self).raw != 0 && threshold_attribute_writable(attribute) && size != 4 ==> r
                == Err::<(), VxError>(VxError::InvalidType) && *final(self) == *old(self),
            old(self).raw != 0 && threshold_attribute_writable(attribute) && size == 4 ==> r
                == Ok::<(), VxError>(())
                && *final(self) == threshold_with_attribute(*old(self), attribute, value),
    {
        if self.raw == 0 {
            return Err(VxError::InvalidReference);
        }
        if !(attribute == VX_THRESHOLD_THRESHOLD_VALUE || attribute == VX_THRESHOLD_THRESHOLD_LOWER
            || attribute == VX_THRESHOLD_THRESHOLD_UPPER || attribute == VX_THRESHOLD_TRUE_VALUE
            || attribute == VX_THRESHOLD_FALSE_VALUE) {
            return Err(VxError::NotSupported);
        }
        if size != 4 {
            return Err(VxError::InvalidType);
        }
        if attribute == VX_THRESHOLD_THRESHOLD_VALUE {
            self.value = value;
        } else if attribute == VX_THRESHOLD_THRESHOLD_LOWER {
            self.lower = value;
        } else if attribute == VX_THRESHOLD_THRESHOLD_UPPER {
            self.upper = value;
        } else if attribute == VX_THRESHOLD_TRUE_VALUE {
            self.true_value = value;
        } else {
            self.false_value = value;
        }
        Ok(())
    }

    /// Reads one of the readable threshold attributes as a signed 32-bit
    /// value.
    ///
    /// The request fails with `InvalidReference` on a released threshold,
    /// with `NotSupported` for an id that is not a readable threshold
    /// attribute, and with `InvalidType` when the given size differs from
    /// the four bytes the engine declares.
    pub fn query_attribute(&self, attribute: i32, size: usize) -> (r: Result<i32, VxError>)
        ensures
            self.raw == 0 ==> r == Err::<i32, VxError>(VxError::InvalidReference),
            self.raw != 0 && !threshold_attribute_readable(attribute) ==> r == Err::<i32, VxError>(
                VxError::NotSupported,
            ),
            self.raw != 0 && threshold_attribute_readable(attribute) && size != 4 ==> r == Err::<
                i32,
                VxError,
            >(VxError::InvalidType),
            self.raw != 0 && threshold_attribute_readable(attribute) && size == 4 ==> r == Ok::<
                i32,
                VxError,
            >(threshold_attribute_value(*self, attribute)),
    {
        if self.raw == 0 {
            return Err(VxError::InvalidReference);
        }
        if !(attribute == VX_THRESHOLD_TYPE || attribute == VX_THRESHOLD_DATA_TYPE || attribute
            == VX_THRESHOLD_THRESHOLD_VALUE || attribute == VX_THRESHOLD_THRESHOLD_LOWER
            || attribute == VX_THRESHOLD_THRESHOLD_UPPER || attribute == VX_THRESHOLD_TRUE_VALUE
            || attribute == VX_THRESHOLD_FALSE_VALUE) {
            return Err(VxError::NotSupported);
        }
        if size != 4 {
            return Err(VxError::InvalidType);
        }
        if attribute == VX_THRESHOLD_TYPE {
            Ok(self.thresh_type)
        } else if attribute == VX_THRESHOLD_THRESHOLD_VALUE {
            Ok(self.value)
        } else if attribute == VX_THRESHOLD_THRESHOLD_LOWER {
            Ok(self.lower)
        } else if attribute == VX_THRESHOLD_THRESHOLD_UPPER {
            Ok(self.upper)
        } else if attribute == VX_THRESHOLD_TRUE_VALUE {
            Ok(self.true_value)
        } else if attribute == VX_THRESHOLD_FALSE_VALUE {
            Ok(self.false_value)
        } else {
            Ok(self.data_type as i32)
        }
    }

    /// The reference count the engine holds for this threshold: one while
    /// the wrapper owns its handle, zero once released.
    pub fn get_reference_count(&self) -> (r: u32)
        ensures
            r == 1 <==> self.raw != 0,
            r == 0 <==> self.raw == 0,
    {
        if self.raw == 0 {
            0
        } else {
            1
        }
    }
}

/// Every readable threshold attribute id declares a four-byte size, so a
/// four-byte read or write is never out of bounds.
pub proof fn lemma_threshold_attribute_sizes(attr: i32)
    requires
        threshold_attribute_readable(attr),
    ensures
        attribute_size(attr) == Some(4usize),
{
}

impl AsVxReference for VxThreshold {
    open spec fn spec_reference(&self) -> VxReference {
        VxReference { raw: self.raw, kind: RefKind::Threshold }
    }

    fn as_reference(&self) -> (r: VxReference) {
        VxReference { raw: self.raw, kind: RefKind::Threshold }
    }
}

impl Release for VxThreshold {
    open spec fn spec_released(&self) -> bool {
        self.raw == 0
    }

    fn release(&mut self) -> (r: Result<(), VxError>)
        ensures
            *final(self) == (VxThreshold { raw: 0, ..*old(self) }),
    {
        self.raw = 0;
        Ok(())
    }
}

impl CheckStatus for VxThreshold {
    open spec fn spec_status(&self) -> VxStatus {
        if self.raw == 0 {
            VxStatus::Error(VxError::InvalidReference)
        } else {
            VxStatus::Success
        }
    }

    fn check_status(&self) -> (r: Result<(), VxError>) {
        if self.raw == 0 {
            Err(VxError::InvalidReference)
        } else {
            Ok(())
        }
    }
}

impl GetName for VxThreshold {
    open spec fn spec_name(&self) -> Option<Seq<char>> {
        match self.name {
            Some(n) => Some(n@),
            None => None,
        }
    }

    fn get_name(&self) -> (r: Option<&str>) {
        match &self.name {
            Some(n) => Some(n.as_str()),
            None => None,
        }
    }
}

impl SetName for VxThreshold {
    fn set_name(&mut self, name: &str)
        ensures
            final(self).name matches Some(n) && n@ == name@,
            *final(self) == (VxThreshold { name: final(self).name, ..*old(self) }),
    {
        self.name = Some(name.to_owned());
    }
}

} // verus!

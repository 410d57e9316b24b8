//! The execution locales this layer manages: the plain processor, always
//! available, and one accelerator whose handle is initialized lazily and
//! then cached. A failed initialization is not cached, so a later request
//! may retry.

use crate::backend;
use crate::error::TensorError;
use crate::strutil::str_equal;
use vstd::prelude::*;

verus! {

/// The execution locales a host names: the plain processor or the
/// accelerator.
#[derive(Clone, Copy, Debug, PartialEq, Eq, Structural)]
pub enum DeviceTag {
    Cpu,
    Cuda,
}

/// The textual name of each locale, as a host binding spells it.
pub open spec fn device_name_spec(d: DeviceTag) -> Seq<char> {
    match d {
        DeviceTag::Cpu => "cpu"@,
        DeviceTag::Cuda => "cuda"@,
    }
}

/// The locale a textual name denotes, or nothing: the match is exact and
/// case-sensitive.
pub open spec fn device_from_name_spec(s: Seq<char>) -> Option<DeviceTag> {
    if s == "cpu"@ {
        Some(DeviceTag::Cpu)
    } else if s == "cuda"@ {
        Some(DeviceTag::Cuda)
    } else {
        None
    }
}

impl DeviceTag {
    /// Parses a locale name; exactly the two names are accepted.
    pub fn from_name(name: &str) -> (r: Option<DeviceTag>)
        ensures
            r == device_from_name_spec(name@),
    {
        if str_equal(name, "cpu") {
            Some(DeviceTag::Cpu)
        } else if str_equal(name, "cuda") {
            Some(DeviceTag::Cuda)
        } else {
            None
        }
    }

    /// The name of this locale; parsing it back yields this tag.
    pub fn name(&self) -> (r: &'static str)
        ensures
            r@ == device_name_spec(*self),
    {
        match self {
            DeviceTag::Cpu => "cpu",
            DeviceTag::Cuda => "cuda",
        }
    }
}

/// Locale names round-trip: the name of a tag parses back to the same
/// tag.
pub proof fn lemma_device_name_round_trip(d: DeviceTag)
    ensures
        device_from_name_spec(device_name_spec(d)) == Some(d),
{
    reveal_strlit("cpu");
    reveal_strlit("cuda");
    assert("cpu"@.len() == 3);
    assert("cuda"@.len() == 4);
}

/// The process-wide accelerator cache, made explicit so its init-once
/// behaviour is checked: the first successful request stores the handle,
/// later requests reuse it, and a failure leaves the cache empty.
pub struct DeviceCache {
    cuda: Option<candle_core::Device>,
}

impl DeviceCache {
    /// Whether the accelerator handle has been initialized and cached.
    pub closed spec fn spec_has_cuda(&self) -> bool {
        self.cuda is Some
    }

    /// An empty cache: nothing initialized yet.
    pub fn new() -> (r: DeviceCache)
        ensures
            !r.spec_has_cuda(),
    {
        DeviceCache { cuda: None }
    }

    /// Hands out a device for the tag. The plain processor always
    /// succeeds and never touches the cache. The accelerator is
    /// constructed on first request and cached only on success, so a
    /// failure reported once may be retried.
    pub fn as_device(&mut self, tag: DeviceTag) -> (r: Result<candle_core::Device, TensorError>)
        ensures
            tag == DeviceTag::Cpu ==> (r matches Ok(_))
                && final(self).spec_has_cuda() == old(self).spec_has_cuda(),
            (tag == DeviceTag::Cuda && old(self).spec_has_cuda()) ==> (r matches Ok(_))
                && final(self).spec_has_cuda(),
            (tag == DeviceTag::Cuda && !old(self).spec_has_cuda()) ==> (
                ((r matches Ok(_)) && final(self).spec_has_cuda())
                || ((r matches Err(e) && e matches TensorError::BackendFailure { .. })
                    && !final(self).spec_has_cuda())
            ),
    {
        match tag {
            DeviceTag::Cpu => Ok(backend::cpu_device()),
            DeviceTag::Cuda => {
                if self.cuda.is_some() {
                    Ok(backend::clone_device(self.cuda.as_ref().unwrap()))
                } else {
                    match backend::new_cuda_device(0) {
                        Ok(d) => {
                            let handed = backend::clone_device(&d);
                            self.cuda = Some(d);
                            Ok(handed)
                        },
                        Err(e) => Err(
                            TensorError::BackendFailure { message: backend::error_text(&e) },
                        ),
                    }
                }
            },
        }
    }
}

} // verus!

//! Extra types for templates: random strings, and the rules for layering file systems.
use vstd::prelude::*;

verus! {

/// Whether `c` is an ASCII letter or digit.
pub open spec fn is_alphanumeric(c: char) -> bool {
    ('a' <= c <= 'z') || ('A' <= c <= 'Z') || ('0' <= c <= '9')
}

/// `len` random ASCII letters and digits (`rand`'s `Alphanumeric` sampled by
/// `SampleString::sample_string` from `rand::rng()`); which ones is left open.
#[verifier::external_body]
fn random_alphanumeric(len: usize) -> (r: String)
    ensures
        r@.len() == len,
        forall|i: int| 0 <= i < len ==> is_alphanumeric(#[trigger] r@[i]),
{
    rand::distr::SampleString::sample_string(&rand::distr::Alphanumeric, &mut rand::rng(), len)
}

/// Why a request was refused.
#[derive(Debug, Clone, Copy, PartialEq, Eq, Structural)]
pub enum TypesExtError {
    /// A random string's length must be from 1 to 255.
    InvalidLength,
    /// An opaque value that holds no file system.
    OpaqueNotVfs,
    /// A value that is no file system at all.
    NotVfs,
}

impl TypesExtError {
    /// The error's message.
    pub fn message(&self) -> (r: &'static str)
        ensures
            r@ == (match *self {
                TypesExtError::InvalidLength => "Length must be greater than 0 and less than 256"@,
                TypesExtError::OpaqueNotVfs => "Opaque must contain a Vfs KhronosValue to be used as a VFS"@,
                TypesExtError::NotVfs => "VFS list must contain only Vfs, MemoryVfs or Opaque(VFS) UserData"@,
            }),
    {
        match self {
            TypesExtError::InvalidLength => "Length must be greater than 0 and less than 256",
            TypesExtError::OpaqueNotVfs => "Opaque must contain a Vfs KhronosValue to be used as a VFS",
            TypesExtError::NotVfs => "VFS list must contain only Vfs, MemoryVfs or Opaque(VFS) UserData",
        }
    }
}

/// A random string of `length` ASCII letters and digits; the length must be from 1 to 255.
pub fn randstring(length: usize) -> (r: Result<String, TypesExtError>)
    ensures
        (length == 0 || length > 255) ==> r == Err::<String, TypesExtError>(TypesExtError::InvalidLength),
        (1 <= length <= 255) ==> (r matches Ok(s) && s@.len() == length
            && forall|i: int| 0 <= i < length ==> is_alphanumeric(#[trigger] s@[i])),
{
    if length == 0 || length > 255 {
        return Err(TypesExtError::InvalidLength);
    }
    Ok(random_alphanumeric(length))
}

/// What one layer of a file system overlay is.
#[derive(Debug, Clone, Copy, PartialEq, Eq, Structural)]
pub enum VfsLayer {
    /// A file system built from a map of files.
    Memory,
    /// A file system built from other layers.
    Vfs,
    /// An opaque value; whether it holds a file system.
    Opaque(bool),
    /// Any other value.
    Other,
}

/// The verdict on the layers of an overlay: the first layer that is no file system refuses it;
/// otherwise the overlay is marked as coming from an opaque value when any layer does.
pub open spec fn overlay_spec(layers: Seq<VfsLayer>) -> Result<bool, TypesExtError>
    decreases layers.len(),
{
    if layers.len() == 0 {
        Ok(false)
    } else {
        match overlay_spec(layers.drop_last()) {
            Err(e) => Err(e),
            Ok(tainted) => match layers.last() {
                VfsLayer::Memory => Ok(tainted),
                VfsLayer::Vfs => Ok(tainted),
                VfsLayer::Opaque(true) => Ok(true),
                VfsLayer::Opaque(false) => Err(TypesExtError::OpaqueNotVfs),
                VfsLayer::Other => Err(TypesExtError::NotVfs),
            },
        }
    }
}

proof fn lemma_overlay_err_extends(layers: Seq<VfsLayer>, k: int)
    requires
        0 <= k <= layers.len(),
        overlay_spec(layers.take(k)) is Err,
    ensures
        overlay_spec(layers) == overlay_spec(layers.take(k)),
    decreases layers.len() - k,
{
    if k < layers.len() {
        assert(layers.drop_last().take(k) =~= layers.take(k));
        lemma_overlay_err_extends(layers.drop_last(), k);
    } else {
        assert(layers.take(k) =~= layers);
    }
}

/// Checks the layers of an overlay, in order; returns whether any came from an opaque value.
pub fn check_overlay(layers: &Vec<VfsLayer>) -> (r: Result<bool, TypesExtError>)
    ensures
        r == overlay_spec(layers@),
{
    let mut tainted = false;
    let mut i: usize = 0;
    while i < layers.len()
        invariant
            i <= layers.len(),
            overlay_spec(layers@.take(i as int)) == Ok::<bool, TypesExtError>(tainted),
        decreases layers.len() - i,
    {
        assert(layers@.take(i + 1).drop_last() =~= layers@.take(i as int));
        match layers[i] {
            VfsLayer::Memory => {},
            VfsLayer::Vfs => {},
            VfsLayer::Opaque(holds) => {
                if !holds {
                    proof {
                        lemma_overlay_err_extends(layers@, i + 1);
                    }
                    return Err(TypesExtError::OpaqueNotVfs);
                }
                tainted = true;
            },
            VfsLayer::Other => {
                proof {
                    lemma_overlay_err_extends(layers@, i + 1);
                }
                return Err(TypesExtError::NotVfs);
            },
        }
        i = i + 1;
    }
    assert(layers@.take(layers.len() as int) =~= layers@);
    Ok(tainted)
}

} // verus!

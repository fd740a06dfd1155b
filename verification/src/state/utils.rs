//! Fixed byte layouts, and loading values from account and instruction data.
use crate::error::ProcessError;
use vstd::prelude::*;

verus! {

/// Types that are stored in a fixed number of bytes.
pub trait DataLEN {
    /// The number of bytes a value takes.
    const LEN: usize;
}

/// Values that carry a flag telling whether they have been initialized.
pub trait Initialized: View {
    /// Whether the value with this view is initialized.
    spec fn spec_is_initialized(v: Self::V) -> bool;

    /// Whether the value is initialized.
    fn is_initialized(&self) -> (r: bool)
        ensures
            r == Self::spec_is_initialized(self@),
    ;
}

/// Values with a fixed layout of `LEN` bytes.
pub trait ByteLayout: DataLEN + View + Sized {
    /// The value that `LEN` bytes hold.
    spec fn spec_decode(bytes: Seq<u8>) -> Self::V;

    /// The bytes `old` with the fields of `v` written over them; bytes that
    /// belong to no field keep their contents.
    spec fn spec_write(v: Self::V, old: Seq<u8>) -> Seq<u8>;

    /// Writing a value and reading it back gives the value.
    proof fn lemma_write_decode(v: Self, old: Seq<u8>)
        requires
            old.len() == Self::LEN,
        ensures
            Self::spec_write(v@, old).len() == Self::LEN,
            Self::spec_decode(Self::spec_write(v@, old)) == v@,
    ;

    /// Reads a value from `LEN` bytes.
    fn decode(bytes: &[u8]) -> (r: Self)
        requires
            bytes@.len() == Self::LEN,
        ensures
            r@ == Self::spec_decode(bytes@),
    ;

    /// Writes the value's fields into `LEN` bytes.
    fn write_to(&self, bytes: &mut Vec<u8>)
        requires
            old(bytes)@.len() == Self::LEN,
        ensures
            final(bytes)@ == Self::spec_write(self@, old(bytes)@),
    ;
}

/// A result with its success value taken by its view.
pub open spec fn view_result<T: View, E>(r: Result<T, E>) -> Result<T::V, E> {
    match r {
        Ok(v) => Ok(v@),
        Err(e) => Err(e),
    }
}

/// `n` zero bytes.
pub open spec fn zeros(n: nat) -> Seq<u8> {
    Seq::new(n, |i: int| 0u8)
}

/// The value that account data holds, whether or not it is initialized.
pub open spec fn spec_load_acc_unchecked<T: ByteLayout>(bytes: Seq<u8>) -> Result<
    T::V,
    ProcessError,
> {
    if bytes.len() == T::LEN {
        Ok(T::spec_decode(bytes))
    } else {
        Err(ProcessError::InvalidAccountData)
    }
}

/// The value that account data holds, refused if it is not initialized.
pub open spec fn spec_load_acc<T: ByteLayout + Initialized>(bytes: Seq<u8>) -> Result<
    T::V,
    ProcessError,
> {
    match spec_load_acc_unchecked::<T>(bytes) {
        Ok(v) => if T::spec_is_initialized(v) {
            Ok(v)
        } else {
            Err(ProcessError::UninitializedAccount)
        },
        Err(e) => Err(e),
    }
}

/// The value that instruction data holds.
pub open spec fn spec_load_ix_data<T: ByteLayout>(bytes: Seq<u8>) -> Result<T::V, ProcessError> {
    if bytes.len() == T::LEN {
        Ok(T::spec_decode(bytes))
    } else {
        Err(ProcessError::InvalidInstructionData)
    }
}

/// Reads an initialized value from account data: the data must be exactly
/// `LEN` bytes long, and the value's initialization flag must be set.
pub fn load_acc<T: ByteLayout + Initialized>(bytes: &[u8]) -> (r: Result<T, ProcessError>)
    ensures
        view_result(r) == spec_load_acc::<T>(bytes@),
{
    match load_acc_unchecked::<T>(bytes) {
        Ok(acc) => {
            if acc.is_initialized() {
                Ok(acc)
            } else {
                Err(ProcessError::UninitializedAccount)
            }
        },
        Err(e) => Err(e),
    }
}

/// Reads a value from account data that must be exactly `LEN` bytes long.
pub fn load_acc_unchecked<T: ByteLayout>(bytes: &[u8]) -> (r: Result<T, ProcessError>)
    ensures
        view_result(r) == spec_load_acc_unchecked::<T>(bytes@),
{
    if bytes.len() != T::LEN {
        return Err(ProcessError::InvalidAccountData);
    }
    Ok(T::decode(bytes))
}

/// Reads an initialized value from account data in order to change it; the
/// changed value is written back with `ByteLayout::write_to`.
pub fn load_acc_mut<T: ByteLayout + Initialized>(bytes: &[u8]) -> (r: Result<T, ProcessError>)
    ensures
        view_result(r) == spec_load_acc::<T>(bytes@),
{
    load_acc::<T>(bytes)
}

/// Reads a value, initialized or not, from account data in order to change
/// it; the changed value is written back with `ByteLayout::write_to`.
pub fn load_acc_mut_unchecked<T: ByteLayout>(bytes: &[u8]) -> (r: Result<T, ProcessError>)
    ensures
        view_result(r) == spec_load_acc_unchecked::<T>(bytes@),
{
    load_acc_unchecked::<T>(bytes)
}

/// Reads a value from instruction data that must be exactly `LEN` bytes long.
pub fn load_ix_data<T: ByteLayout>(bytes: &[u8]) -> (r: Result<T, ProcessError>)
    ensures
        view_result(r) == spec_load_ix_data::<T>(bytes@),
{
    if bytes.len() != T::LEN {
        return Err(ProcessError::InvalidInstructionData);
    }
    Ok(T::decode(bytes))
}

/// The `LEN` bytes of a value, with zeros between its fields.
pub fn to_bytes<T: ByteLayout>(data: &T) -> (r: Vec<u8>)
    ensures
        r@ == T::spec_write(data@, zeros(T::LEN as nat)),
{
    let mut bytes: Vec<u8> = vec![0u8; T::LEN];
    assert(bytes@ =~= zeros(T::LEN as nat));
    data.write_to(&mut bytes);
    bytes
}

/// Appends the bytes `src[start..end]` to `out`.
pub(crate) fn push_range(out: &mut Vec<u8>, src: &[u8], start: usize, end: usize)
    requires
        start <= end <= src@.len(),
    ensures
        final(out)@ == old(out)@ + src@.subrange(start as int, end as int),
{
    let ghost before = out@;
    let mut i = start;
    while i < end
        invariant
            start <= i <= end <= src@.len(),
            out@ == before + src@.subrange(start as int, i as int),
        decreases end - i,
    {
        out.push(src[i]);
        i = i + 1;
        assert(out@ =~= before + src@.subrange(start as int, i as int));
    }
}

/// Writing a value and loading it back gives the value: from any `LEN`
/// bytes, an initialized value written over them loads unchanged.
pub proof fn law_write_then_load<T: ByteLayout + Initialized>(v: T, old: Seq<u8>)
    requires
        old.len() == T::LEN,
        T::spec_is_initialized(v@),
    ensures
        spec_load_acc::<T>(T::spec_write(v@, old)) == Ok::<T::V, ProcessError>(v@),
        spec_load_acc_unchecked::<T>(T::spec_write(v@, old)) == Ok::<T::V, ProcessError>(v@),
{
    T::lemma_write_decode(v, old);
}

} // verus!

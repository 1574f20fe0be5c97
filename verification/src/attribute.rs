//! Attribute records and attribute lists: read-only views of memory that the
//! keychain service owns.
//!
//! The service answers a query with a count and the address of that many
//! records; each record holds a tag, a length and the address of its data. A
//! view stands for such an address by what can be read there: `None` for the
//! null address, and otherwise the borrowed memory. Whoever makes a view
//! vouches, once, that the memory is what the service filled in and outlives
//! the view. After that no read goes past what was vouched for, and nothing
//! is copied or freed: to release the memory stays with the caller, who knows
//! which call of the service made it.

use crate::four_char_code::FourCharacterCode;
use vstd::prelude::*;
use vstd::slice::slice_subrange;
use vstd::std_specs::slice::into_iter_elts;

verus! {

/// The type code of an attribute.
pub type SecKeychainAttrType = FourCharacterCode;

/// What a record says, as plain values.
pub struct AttributeView {
    /// The attribute's type code.
    pub tag: SecKeychainAttrType,
    /// The number of bytes of data that the record declares.
    pub length: u32,
    /// The bytes that can be read at the record's data address, or `None`
    /// where that address is null.
    pub region: Option<Seq<u8>>,
}

impl AttributeView {
    /// Whether as many bytes as the record declares can be read at its data
    /// address. A null address asks for nothing.
    pub open spec fn readable(self) -> bool {
        self.region matches Some(bytes) ==> self.length <= bytes.len()
    }

    /// The record's data: nothing where the data address is null, whatever
    /// length is declared, and otherwise the first `length` bytes at that
    /// address.
    pub open spec fn data(self) -> Option<Seq<u8>> {
        match self.region {
            None => None,
            Some(bytes) => Some(bytes.take(self.length as int)),
        }
    }

    /// A record without a data address has no data, whatever length it
    /// declares. One with a data address has exactly as many bytes as it
    /// declares: the first at that address, in order.
    pub proof fn lemma_data_of_record(self)
        requires
            self.readable(),
        ensures
            self.region is None ==> self.data() is None,
            self.region matches Some(bytes) ==> {
                &&& self.data() matches Some(data)
                &&& data.len() == self.length
                &&& forall|i: int| 0 <= i < self.length ==> data[i] == bytes[i]
            },
    {
    }
}

/// The records that a list of `count` records at `base` holds: the first
/// `count` of those at the base address, and none where `count` is zero,
/// whether the base address is null or not.
pub open spec fn listed<T>(count: u32, base: Option<Seq<T>>) -> Seq<T> {
    match base {
        Some(records) if count != 0 => records.take(count as int),
        _ => Seq::empty(),
    }
}

/// A list that counts no records holds none, whether or not it has a base
/// address.
pub proof fn lemma_no_count_no_records<T>(base: Option<Seq<T>>)
    ensures
        listed(0, base) == Seq::<T>::empty(),
{
}

/// One attribute of a keychain item: a tag and, where there is any, the bytes
/// of its value.
pub struct SecKeychainAttribute<'a> {
    tag: SecKeychainAttrType,
    length: u32,
    data: Option<&'a [u8]>,
}

impl<'a> View for SecKeychainAttribute<'a> {
    type V = AttributeView;

    closed spec fn view(&self) -> AttributeView {
        AttributeView {
            tag: self.tag,
            length: self.length,
            region: match self.data {
                None => None,
                Some(bytes) => Some(bytes@),
            },
        }
    }
}

impl<'a> SecKeychainAttribute<'a> {
    #[verifier::type_invariant]
    spec fn readable(self) -> bool {
        self@.readable()
    }

    /// A view of the record that holds `tag`, `length` and a data address
    /// at which `data` can be read (`None`: the null address).
    ///
    /// The caller vouches that the record's `length` bytes can be read there.
    pub fn new(tag: SecKeychainAttrType, length: u32, data: Option<&'a [u8]>) -> (record: Self)
        requires
            data matches Some(bytes) ==> length <= bytes@.len(),
        ensures
            record@.readable(),
            record@ == (AttributeView {
                tag,
                length,
                region: match data {
                    None => None,
                    Some(bytes) => Some(bytes@),
                },
            }),
    {
        SecKeychainAttribute { tag, length, data }
    }

    /// The tag that names this attribute's type.
    pub fn tag(&self) -> (tag: SecKeychainAttrType)
        ensures
            tag == self@.tag,
    {
        self.tag
    }

    /// The attribute's data: `None` where the record's data address is null,
    /// and otherwise exactly as many bytes as the record declares.
    pub fn data(&self) -> (data: Option<&'a [u8]>)
        ensures
            self@.readable(),
            match data {
                None => self@.data() is None,
                Some(bytes) => self@.data() == Some(bytes@),
            },
    {
        proof {
            use_type_invariant(self);
        }
        match self.data {
            None => None,
            Some(region) => Some(slice_subrange(region, 0, self.length as usize)),
        }
    }
}

/// The attributes that the service returned for one item.
///
/// The view does not release what it shows when it goes out of scope: lists
/// of one shape come from several calls of the service, and each has its own
/// call to free them.
pub struct SecKeychainAttributeList<'a> {
    count: u32,
    attr: Option<&'a [SecKeychainAttribute<'a>]>,
}

impl<'a> View for SecKeychainAttributeList<'a> {
    type V = Seq<SecKeychainAttribute<'a>>;

    closed spec fn view(&self) -> Seq<SecKeychainAttribute<'a>> {
        listed(
            self.count,
            match self.attr {
                None => None,
                Some(records) => Some(records@),
            },
        )
    }
}

impl<'a> SecKeychainAttributeList<'a> {
    #[verifier::type_invariant]
    spec fn readable(self) -> bool {
        self.count != 0 ==> (self.attr matches Some(records) && self.count <= records@.len())
    }

    /// A view of the list of `count` records at a base address at which
    /// `attr` can be read (`None`: the null address).
    ///
    /// The caller vouches that `count` records can be read there. A list of
    /// no records may have any base address.
    pub fn new(count: u32, attr: Option<&'a [SecKeychainAttribute<'a>]>) -> (list: Self)
        requires
            count != 0 ==> (attr matches Some(records) && count <= records@.len()),
        ensures
            list@.len() == count,
            list@ == listed(
                count,
                match attr {
                    None => None,
                    Some(records) => Some(records@),
                },
            ),
    {
        SecKeychainAttributeList { count, attr }
    }

    /// The list's records, in order.
    pub fn as_slice(&self) -> (records: &'a [SecKeychainAttribute<'a>])
        ensures
            records@ == self@,
    {
        proof {
            use_type_invariant(self);
        }
        match self.attr {
            Some(all) => slice_subrange(all, 0, self.count as usize),
            None => &[],
        }
    }

    /// An iterator over the list's records, in order. Each call starts at
    /// the first record again.
    pub fn iter(&self) -> (records: core::slice::Iter<'a, SecKeychainAttribute<'a>>)
        ensures
            into_iter_elts(records) == self@,
            vstd::std_specs::iter::IteratorSpec::remaining(&records) == self@.as_ref(),
            vstd::std_specs::iter::IteratorSpec::decrease(&records) is Some,
            vstd::std_specs::iter::IteratorSpec::initial_value_relation(&records, &records),
    {
        broadcast use vstd::std_specs::slice::axiom_spec_slice_iter;

        self.as_slice().iter()
    }
}

} // verus!

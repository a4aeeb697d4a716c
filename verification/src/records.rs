//! The person records as they are seen on this side of the boundary, and the
//! accessors through which the computations read them.
//!
//! A record is read-only here. Its text fields are either views into strings
//! that the foreign side owns, or bytes that were copied when the record
//! crossed. The model of a record tells the two apart no more than a
//! computation can: it holds the numbers and, for each text, its bytes.

use crate::text::TextView;
use vstd::prelude::*;

verus! {

/// A postal address.
pub struct Address<'a> {
    pub street: TextView<'a>,
    pub city: TextView<'a>,
    pub postal_code: TextView<'a>,
}

/// How a person is reached.
pub struct ContactInfo<'a> {
    pub email: TextView<'a>,
    pub phone: TextView<'a>,
    pub address: Address<'a>,
}

/// A person: an age in years, a height in micrometres, a name and the
/// person's contact record.
pub struct Person<'a> {
    pub age: u32,
    pub height_um: i32,
    pub name: TextView<'a>,
    pub contact: ContactInfo<'a>,
}

/// What an address holds.
pub ghost struct AddressModel {
    pub street: Seq<u8>,
    pub city: Seq<u8>,
    pub postal_code: Seq<u8>,
}

/// What a contact record holds.
pub ghost struct ContactModel {
    pub email: Seq<u8>,
    pub phone: Seq<u8>,
    pub address: AddressModel,
}

/// What a person record holds.
pub ghost struct PersonModel {
    pub age: u32,
    pub height_um: i32,
    pub name: Seq<u8>,
    pub contact: ContactModel,
}

impl<'a> View for Address<'a> {
    type V = AddressModel;

    open spec fn view(&self) -> AddressModel {
        AddressModel { street: self.street@, city: self.city@, postal_code: self.postal_code@ }
    }
}

impl<'a> View for ContactInfo<'a> {
    type V = ContactModel;

    open spec fn view(&self) -> ContactModel {
        ContactModel { email: self.email@, phone: self.phone@, address: self.address@ }
    }
}

impl<'a> View for Person<'a> {
    type V = PersonModel;

    open spec fn view(&self) -> PersonModel {
        PersonModel {
            age: self.age,
            height_um: self.height_um,
            name: self.name@,
            contact: self.contact@,
        }
    }
}

impl<'a> Address<'a> {
    /// An address of the three given parts.
    pub fn new(street: TextView<'a>, city: TextView<'a>, postal_code: TextView<'a>) -> (r: Self)
        ensures
            r.street == street,
            r.city == city,
            r.postal_code == postal_code,
    {
        Address { street, city, postal_code }
    }

    /// The street, with the house number.
    pub fn street(&self) -> (r: &TextView<'a>)
        ensures
            *r == self.street,
    {
        &self.street
    }

    /// The city.
    pub fn city(&self) -> (r: &TextView<'a>)
        ensures
            *r == self.city,
    {
        &self.city
    }

    /// The postal code.
    pub fn postal_code(&self) -> (r: &TextView<'a>)
        ensures
            *r == self.postal_code,
    {
        &self.postal_code
    }

    /// A copy of the address that depends on no foreign string.
    pub fn to_copied(&self) -> (r: Address<'static>)
        ensures
            r@ == self@,
    {
        Address {
            street: self.street.to_copied(),
            city: self.city.to_copied(),
            postal_code: self.postal_code.to_copied(),
        }
    }
}

impl<'a> ContactInfo<'a> {
    /// A contact record of the three given parts.
    pub fn new(email: TextView<'a>, phone: TextView<'a>, address: Address<'a>) -> (r: Self)
        ensures
            r.email == email,
            r.phone == phone,
            r.address == address,
    {
        ContactInfo { email, phone, address }
    }

    /// The e-mail address.
    pub fn email(&self) -> (r: &TextView<'a>)
        ensures
            *r == self.email,
    {
        &self.email
    }

    /// The phone number.
    pub fn phone(&self) -> (r: &TextView<'a>)
        ensures
            *r == self.phone,
    {
        &self.phone
    }

    /// The postal address.
    pub fn address(&self) -> (r: &Address<'a>)
        ensures
            *r == self.address,
    {
        &self.address
    }

    /// A copy of the contact record, address included, that depends on no
    /// foreign string.
    pub fn to_copied(&self) -> (r: ContactInfo<'static>)
        ensures
            r@ == self@,
    {
        ContactInfo {
            email: self.email.to_copied(),
            phone: self.phone.to_copied(),
            address: self.address.to_copied(),
        }
    }
}

impl<'a> Person<'a> {
    /// A person of the four given parts.
    pub fn new(age: u32, height_um: i32, name: TextView<'a>, contact: ContactInfo<'a>) -> (r: Self)
        ensures
            r.age == age,
            r.height_um == height_um,
            r.name == name,
            r.contact == contact,
    {
        Person { age, height_um, name, contact }
    }

    /// The age in years.
    pub fn age(&self) -> (r: u32)
        ensures
            r == self.age,
    {
        self.age
    }

    /// The height in micrometres.
    pub fn height_um(&self) -> (r: i32)
        ensures
            r == self.height_um,
    {
        self.height_um
    }

    /// The name.
    pub fn name(&self) -> (r: &TextView<'a>)
        ensures
            *r == self.name,
    {
        &self.name
    }

    /// The person's contact record.
    pub fn contact(&self) -> (r: &ContactInfo<'a>)
        ensures
            *r == self.contact,
    {
        &self.contact
    }

    /// A copy of the person, contact record included, that depends on no
    /// foreign string.
    pub fn to_copied(&self) -> (r: Person<'static>)
        ensures
            r@ == self@,
    {
        Person {
            age: self.age,
            height_um: self.height_um,
            name: self.name.to_copied(),
            contact: self.contact.to_copied(),
        }
    }
}

} // verus!

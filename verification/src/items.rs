//! The things that can be put up for sale.
//!
//! Every item has a price that may be changed, a label under which it is
//! listed, a sound, and a record of its own fields under a tag that names its
//! kind. There are three kinds; `AnyItem` is an item of any of them.

use crate::json::{members_of, number, text, Json, Record};
use vstd::prelude::*;

verus! {

/// The kinds of items there are.
#[derive(Clone, Copy, Debug, PartialEq, Eq)]
pub enum Kind {
    Car,
    Fox,
    Dog,
}

impl Kind {
    /// The tag under which records of this kind are stored.
    pub open spec fn tag_text(self) -> Seq<char> {
        match self {
            Kind::Car => "Car"@,
            Kind::Fox => "Fox"@,
            Kind::Dog => "Dog"@,
        }
    }

    /// The kind that a tag names, if it names one. Tags are compared letter
    /// for letter.
    pub open spec fn of_tag(tag: Seq<char>) -> Option<Kind> {
        if tag == "Car"@ {
            Some(Kind::Car)
        } else if tag == "Fox"@ {
            Some(Kind::Fox)
        } else if tag == "Dog"@ {
            Some(Kind::Dog)
        } else {
            None
        }
    }

    /// The label under which items of this kind are listed. It is not the
    /// tag.
    pub open spec fn label(self) -> Seq<char> {
        match self {
            Kind::Car => "Bil"@,
            Kind::Fox => "Räv"@,
            Kind::Dog => "Hund"@,
        }
    }

    /// The sound that items of this kind make.
    pub open spec fn sound(self) -> Seq<char> {
        match self {
            Kind::Car => "Vroom vroom!"@,
            Kind::Fox => silence_text(),
            Kind::Dog => "Voff voff!"@,
        }
    }

    pub fn tag(&self) -> (tag: &'static str)
        ensures
            tag@ == self.tag_text(),
    {
        match self {
            Kind::Car => "Car",
            Kind::Fox => "Fox",
            Kind::Dog => "Dog",
        }
    }

    pub fn from_tag(tag: &str) -> (kind: Option<Kind>)
        ensures
            kind == Kind::of_tag(tag@),
    {
        if same_text(tag, "Car") {
            Some(Kind::Car)
        } else if same_text(tag, "Fox") {
            Some(Kind::Fox)
        } else if same_text(tag, "Dog") {
            Some(Kind::Dog)
        } else {
            None
        }
    }

    /// Every kind is the one that its own tag names.
    pub proof fn lemma_tag_names_kind(self)
        ensures
            Kind::of_tag(self.tag_text()) == Some(self),
    {
        reveal_strlit("Car");
        reveal_strlit("Fox");
        reveal_strlit("Dog");
        assert("Car"@[0] == 'C');
        assert("Fox"@[0] == 'F');
        assert("Dog"@[0] == 'D');
    }
}

/// Whether two texts are the same, letter for letter.
pub fn same_text(a: &str, b: &str) -> (same: bool)
    ensures
        same == (a@ == b@),
{
    a.to_owned() == b.to_owned()
}

/// The sound of an item that has none of its own.
pub open spec fn silence_text() -> Seq<char> {
    "Detta föremål gör inget ljud!"@
}

/// The sound of an item that has none of its own.
pub fn silence() -> (sound: &'static str)
    ensures
        sound@ == silence_text(),
{
    "Detta föremål gör inget ljud!"
}

/// What an item is: its kind and what it holds.
pub enum ItemView {
    Car { price: i32, motor: Seq<char> },
    Fox { price: i32 },
    Dog { price: i32, length: u32 },
}

impl ItemView {
    pub open spec fn kind(self) -> Kind {
        match self {
            ItemView::Car { .. } => Kind::Car,
            ItemView::Fox { .. } => Kind::Fox,
            ItemView::Dog { .. } => Kind::Dog,
        }
    }

    pub open spec fn price(self) -> i32 {
        match self {
            ItemView::Car { price, .. } => price,
            ItemView::Fox { price } => price,
            ItemView::Dog { price, .. } => price,
        }
    }

    /// The same item at another price.
    pub open spec fn with_price(self, price: i32) -> ItemView {
        match self {
            ItemView::Car { motor, .. } => ItemView::Car { price, motor },
            ItemView::Fox { .. } => ItemView::Fox { price },
            ItemView::Dog { length, .. } => ItemView::Dog { price, length },
        }
    }

    pub open spec fn name(self) -> Seq<char> {
        self.kind().label()
    }

    pub open spec fn sound(self) -> Seq<char> {
        self.kind().sound()
    }

    /// The record that the item writes of itself: its tag and the fields
    /// that only its kind has. The price is not among them.
    pub open spec fn own_fields(self) -> Map<Seq<char>, Json> {
        let tagged = Map::<Seq<char>, Json>::empty().insert(
            "type"@,
            Json::Text(self.kind().tag_text()),
        );
        match self {
            ItemView::Car { motor, .. } => tagged.insert("motor"@, Json::Text(motor)),
            ItemView::Fox { .. } => tagged,
            ItemView::Dog { length, .. } => tagged.insert("length"@, Json::Integer(length as int)),
        }
    }
}

/// What every item can do.
pub trait Item: View<V = ItemView> {
    /// The item's tag and the fields of its kind, without the price.
    fn serialize(&self) -> (fields: Record)
        ensures
            members_of(fields) == self@.own_fields(),
    ;

    /// The label under which the item is listed.
    fn name(&self) -> (label: &str)
        ensures
            label@ == self@.name(),
    ;

    fn price(&self) -> (price: i32)
        ensures
            price == self@.price(),
    ;

    /// Sets the price, whatever it is, and changes nothing else.
    fn set_price(&mut self, price: i32)
        ensures
            final(self)@ == old(self)@.with_price(price),
    ;

    /// The sound of the item; `silence` for one that has none of its own.
    fn make_sound(&self) -> (sound: &str)
        ensures
            sound@ == self@.sound(),
    ;
}

/// A record that holds the tag of a kind and nothing else.
fn tagged(kind: Kind) -> (fields: Record)
    ensures
        members_of(fields) == Map::<Seq<char>, Json>::empty().insert(
            "type"@,
            Json::Text(kind.tag_text()),
        ),
{
    let mut fields = Record::new();
    fields.insert("type".to_owned(), text(kind.tag().to_owned()));
    fields
}

#[derive(Clone, Debug, PartialEq, Eq)]
pub struct Car {
    pub price: i32,
    pub motor: String,
}

impl View for Car {
    type V = ItemView;

    open spec fn view(&self) -> ItemView {
        ItemView::Car { price: self.price, motor: self.motor@ }
    }
}

impl Item for Car {
    fn serialize(&self) -> (fields: Record) {
        let mut fields = tagged(Kind::Car);
        fields.insert("motor".to_owned(), text(self.motor.clone()));
        fields
    }

    fn name(&self) -> (label: &str) {
        "Bil"
    }

    fn price(&self) -> (price: i32) {
        self.price
    }

    fn set_price(&mut self, price: i32) {
        self.price = price;
    }

    fn make_sound(&self) -> (sound: &str) {
        "Vroom vroom!"
    }
}

#[derive(Clone, Debug, PartialEq, Eq)]
pub struct Fox {
    pub price: i32,
}

impl View for Fox {
    type V = ItemView;

    open spec fn view(&self) -> ItemView {
        ItemView::Fox { price: self.price }
    }
}

impl Item for Fox {
    fn serialize(&self) -> (fields: Record) {
        tagged(Kind::Fox)
    }

    fn name(&self) -> (label: &str) {
        "Räv"
    }

    fn price(&self) -> (price: i32) {
        self.price
    }

    fn set_price(&mut self, price: i32) {
        self.price = price;
    }

    fn make_sound(&self) -> (sound: &str) {
        silence()
    }
}

#[derive(Clone, Debug, PartialEq, Eq)]
pub struct Dog {
    pub price: i32,
    pub length: u32,
}

impl Dog {
    pub fn new(price: i32, length: u32) -> (dog: Self)
        ensures
            dog.price == price,
            dog.length == length,
    {
        Self { price, length }
    }
}

impl View for Dog {
    type V = ItemView;

    open spec fn view(&self) -> ItemView {
        ItemView::Dog { price: self.price, length: self.length }
    }
}

impl Item for Dog {
    fn serialize(&self) -> (fields: Record) {
        let mut fields = tagged(Kind::Dog);
        fields.insert("length".to_owned(), number(self.length as i64));
        fields
    }

    fn name(&self) -> (label: &str) {
        "Hund"
    }

    fn price(&self) -> (price: i32) {
        self.price
    }

    fn set_price(&mut self, price: i32) {
        self.price = price;
    }

    fn make_sound(&self) -> (sound: &str) {
        "Voff voff!"
    }
}

/// An item of any kind.
#[derive(Clone, Debug, PartialEq, Eq)]
pub enum AnyItem {
    Car(Car),
    Fox(Fox),
    Dog(Dog),
}

impl View for AnyItem {
    type V = ItemView;

    open spec fn view(&self) -> ItemView {
        match self {
            AnyItem::Car(car) => car@,
            AnyItem::Fox(fox) => fox@,
            AnyItem::Dog(dog) => dog@,
        }
    }
}

impl AnyItem {
    pub fn kind(&self) -> (kind: Kind)
        ensures
            kind == self@.kind(),
    {
        match self {
            AnyItem::Car(_) => Kind::Car,
            AnyItem::Fox(_) => Kind::Fox,
            AnyItem::Dog(_) => Kind::Dog,
        }
    }
}

impl Item for AnyItem {
    fn serialize(&self) -> (fields: Record) {
        match self {
            AnyItem::Car(car) => car.serialize(),
            AnyItem::Fox(fox) => fox.serialize(),
            AnyItem::Dog(dog) => dog.serialize(),
        }
    }

    fn name(&self) -> (label: &str) {
        match self {
            AnyItem::Car(car) => car.name(),
            AnyItem::Fox(fox) => fox.name(),
            AnyItem::Dog(dog) => dog.name(),
        }
    }

    fn price(&self) -> (price: i32) {
        match self {
            AnyItem::Car(car) => car.price(),
            AnyItem::Fox(fox) => fox.price(),
            AnyItem::Dog(dog) => dog.price(),
        }
    }

    fn set_price(&mut self, price: i32) {
        match self {
            AnyItem::Car(car) => car.set_price(price),
            AnyItem::Fox(fox) => fox.set_price(price),
            AnyItem::Dog(dog) => dog.set_price(price),
        }
    }

    fn make_sound(&self) -> (sound: &str) {
        match self {
            AnyItem::Car(car) => car.make_sound(),
            AnyItem::Fox(fox) => fox.make_sound(),
            AnyItem::Dog(dog) => dog.make_sound(),
        }
    }
}

} // verus!

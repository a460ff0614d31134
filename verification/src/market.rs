//! The registry: the items on offer, in the order in which they were added.
//!
//! An item is known by its place in that order, counted from zero. Taking
//! an item out moves every later one a place forward.

use crate::input::{parse, parse_length, parse_length_spec, parse_spec};
use crate::items::{AnyItem, Car, Dog, Fox, Item, ItemView, Kind};
use vstd::prelude::*;

verus! {

pub struct MarketPlace {
    items: Vec<AnyItem>,
}

impl View for MarketPlace {
    type V = Seq<ItemView>;

    closed spec fn view(&self) -> Seq<ItemView> {
        Seq::new(self.items@.len(), |i: int| self.items@[i]@)
    }
}

/// One line of the list of items.
#[derive(Clone, Debug, PartialEq, Eq)]
pub struct Listing {
    pub index: usize,
    pub name: String,
    pub price: i32,
    pub sound: String,
}

impl Listing {
    /// Whether this is the line for `item` at place `index`.
    pub open spec fn shows(self, index: int, item: ItemView) -> bool {
        &&& self.index == index
        &&& self.name@ == item.name()
        &&& self.price == item.price()
        &&& self.sound@ == item.sound()
    }
}

/// A question put to whoever adds an item.
#[derive(Clone, Copy, Debug, PartialEq, Eq)]
pub enum Question {
    CarPrice,
    CarMotor,
    FoxPrice,
    DogPrice,
    DogLength,
}

impl Question {
    pub open spec fn text_spec(self) -> Seq<char> {
        match self {
            Question::CarPrice => "Hur mycket kostar bilen?"@,
            Question::CarMotor => "Vad har bilen för motor?"@,
            Question::FoxPrice => "Hur mycket kostar räven?"@,
            Question::DogPrice => "Hur mycket kostar hunden?"@,
            Question::DogLength => "Hur lång är hunden?"@,
        }
    }

    /// The words of the question.
    pub fn text(&self) -> (words: &'static str)
        ensures
            words@ == self.text_spec(),
    {
        match self {
            Question::CarPrice => "Hur mycket kostar bilen?",
            Question::CarMotor => "Vad har bilen för motor?",
            Question::FoxPrice => "Hur mycket kostar räven?",
            Question::DogPrice => "Hur mycket kostar hunden?",
            Question::DogLength => "Hur lång är hunden?",
        }
    }
}

/// How far the answers given so far carry the making of an item.
pub enum Draft {
    /// The tag names no kind of item.
    UnknownKind,
    /// The next question to put. Its answer is added to the answers.
    Ask(Question),
    /// The last answer given is not the number that was asked for.
    BadFormat,
    /// The answers make this item.
    Ready(ItemView),
}

/// What `create_item` did with the answers given so far.
#[derive(Clone, Copy, Debug, PartialEq, Eq)]
pub enum Creation {
    /// The tag names no kind of item. Nothing was added.
    UnknownKind,
    /// A question is still open. Nothing was added.
    Ask(Question),
    /// The last answer given is not the number that was asked for. Nothing
    /// was added.
    BadFormat,
    /// The item was added at the end.
    Added,
}

/// How far `answers`, taken in the order of the questions, carry the making
/// of an item of the kind that `tag` names. The questions of a kind are put
/// one after the other, and a number that cannot be read ends it at once. A
/// price is any number of 32 bits with a sign; the length of a dog is one
/// without, so a negative length is a number that cannot be read. Answers
/// beyond the last question are not looked at.
pub open spec fn draft(tag: Seq<char>, answers: Seq<Seq<char>>) -> Draft {
    match Kind::of_tag(tag) {
        None => Draft::UnknownKind,
        Some(Kind::Car) => if answers.len() < 1 {
            Draft::Ask(Question::CarPrice)
        } else {
            match parse_spec(answers[0]) {
                None => Draft::BadFormat,
                Some(price) => if answers.len() < 2 {
                    Draft::Ask(Question::CarMotor)
                } else {
                    Draft::Ready(ItemView::Car { price, motor: answers[1] })
                },
            }
        },
        Some(Kind::Fox) => if answers.len() < 1 {
            Draft::Ask(Question::FoxPrice)
        } else {
            match parse_spec(answers[0]) {
                None => Draft::BadFormat,
                Some(price) => Draft::Ready(ItemView::Fox { price }),
            }
        },
        Some(Kind::Dog) => if answers.len() < 1 {
            Draft::Ask(Question::DogPrice)
        } else {
            match parse_spec(answers[0]) {
                None => Draft::BadFormat,
                Some(price) => if answers.len() < 2 {
                    Draft::Ask(Question::DogLength)
                } else {
                    match parse_length_spec(answers[1]) {
                        None => Draft::BadFormat,
                        Some(length) => Draft::Ready(ItemView::Dog { price, length }),
                    }
                },
            }
        },
    }
}

/// The texts of the answers.
pub open spec fn texts(answers: Seq<String>) -> Seq<Seq<char>> {
    Seq::new(answers.len(), |i: int| answers[i]@)
}

impl MarketPlace {
    /// A registry without items.
    pub fn new() -> (market: Self)
        ensures
            market@ == Seq::<ItemView>::empty(),
    {
        MarketPlace { items: Vec::new() }
    }

    pub fn len(&self) -> (len: usize)
        ensures
            len == self@.len(),
    {
        self.items.len()
    }

    /// The item at a place.
    pub fn get(&self, index: usize) -> (item: Option<&AnyItem>)
        ensures
            match item {
                Some(found) => index < self@.len() && found@ == self@[index as int],
                None => index >= self@.len(),
            },
    {
        if index < self.items.len() {
            Some(&self.items[index])
        } else {
            None
        }
    }

    /// Puts an item at the end.
    pub fn add_item(&mut self, item: AnyItem)
        ensures
            final(self)@ == old(self)@.push(item@),
    {
        self.items.push(item);
    }

    /// A line for every item, in order: its place, its label, its price and
    /// its sound.
    pub fn list_items(&self) -> (lines: Vec<Listing>)
        ensures
            lines@.len() == self@.len(),
            forall|i: int| 0 <= i < lines@.len() ==> (#[trigger] lines@[i]).shows(i, self@[i]),
    {
        let mut lines: Vec<Listing> = Vec::new();
        let mut index: usize = 0;
        while index < self.items.len()
            invariant
                index <= self.items@.len(),
                lines@.len() == index,
                forall|i: int| 0 <= i < index ==> (#[trigger] lines@[i]).shows(i, self@[i]),
            decreases self.items@.len() - index,
        {
            let item = &self.items[index];
            let line = Listing {
                index,
                name: item.name().to_owned(),
                price: item.price(),
                sound: item.make_sound().to_owned(),
            };
            lines.push(line);
            index += 1;
        }
        lines
    }

    /// Makes an item of the kind that `item_type` names out of the answers
    /// given so far, and adds it once they are all there. Until then it
    /// says which question is next, and changes nothing.
    pub fn create_item(&mut self, item_type: &str, answers: &Vec<String>) -> (done: Creation)
        ensures
            match draft(item_type@, texts(answers@)) {
                Draft::UnknownKind => done == Creation::UnknownKind && final(self)@ == old(self)@,
                Draft::Ask(question) => done == Creation::Ask(question) && final(self)@ == old(
                    self,
                )@,
                Draft::BadFormat => done == Creation::BadFormat && final(self)@ == old(self)@,
                Draft::Ready(item) => done == Creation::Added && final(self)@ == old(self)@.push(
                    item,
                ),
            },
    {
        let kind = match Kind::from_tag(item_type) {
            Some(kind) => kind,
            None => {
                return Creation::UnknownKind;
            },
        };
        let first = match kind {
            Kind::Car => Question::CarPrice,
            Kind::Fox => Question::FoxPrice,
            Kind::Dog => Question::DogPrice,
        };
        if answers.len() < 1 {
            return Creation::Ask(first);
        }
        let price = match parse(answers[0].as_str()) {
            Some(price) => price,
            None => {
                return Creation::BadFormat;
            },
        };
        match kind {
            Kind::Car => {
                if answers.len() < 2 {
                    return Creation::Ask(Question::CarMotor);
                }
                let motor = answers[1].clone();
                self.add_item(AnyItem::Car(Car { price, motor }));
            },
            Kind::Fox => {
                self.add_item(AnyItem::Fox(Fox { price }));
            },
            Kind::Dog => {
                if answers.len() < 2 {
                    return Creation::Ask(Question::DogLength);
                }
                let length = match parse_length(answers[1].as_str()) {
                    Some(length) => length,
                    None => {
                        return Creation::BadFormat;
                    },
                };
                self.add_item(AnyItem::Dog(Dog::new(price, length)));
            },
        }
        Creation::Added
    }

    /// Sets the price of the item at `index`, where there is one. Says
    /// whether there was; where there was none, nothing is changed.
    pub fn change_price(&mut self, index: usize, price: i32) -> (changed: bool)
        ensures
            changed == (index < old(self)@.len()),
            changed ==> final(self)@ == old(self)@.update(
                index as int,
                old(self)@[index as int].with_price(price),
            ),
            !changed ==> final(self)@ == old(self)@,
    {
        if index < self.items.len() {
            self.items[index].set_price(price);
            assert(self@ =~= old(self)@.update(
                index as int,
                old(self)@[index as int].with_price(price),
            ));
            true
        } else {
            false
        }
    }

    /// Takes the item at `index` out, where there is one, and hands it
    /// over; the items behind it move a place forward. Where there is
    /// none, nothing is changed.
    pub fn remove_item(&mut self, index: usize) -> (removed: Option<AnyItem>)
        ensures
            match removed {
                Some(item) => index < old(self)@.len() && item@ == old(self)@[index as int]
                    && final(self)@ == old(self)@.remove(index as int),
                None => index >= old(self)@.len() && final(self)@ == old(self)@,
            },
    {
        if index >= self.items.len() {
            return None;
        }
        let item = self.items.remove(index);
        Some(item)
    }
}

} // verus!

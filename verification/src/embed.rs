//! Messages with a frame: a colour, a title, a text and a list of entries.
//!
//! An [`Embed`] says what such a message holds. Turning it into what the
//! chat platform's library sends is left to the shell.

use vstd::prelude::*;
use vstd::string::*;

verus! {

/// One entry of a framed message.
#[derive(Debug)]
pub struct Field {
    pub name: String,
    pub value: String,
    /// Whether the entry may stand beside others in one row.
    pub inline: bool,
}

/// A framed message.
#[derive(Debug)]
pub struct Embed {
    pub color: u32,
    pub title: Option<String>,
    pub description: Option<String>,
    pub fields: Vec<Field>,
    /// The address of the small picture shown in the corner, if there is
    /// one.
    pub thumbnail: Option<String>,
    /// The name shown above the title, if there is one.
    pub author: Option<String>,
    /// Whether the message is stamped with the time at which it is sent.
    pub timestamped: bool,
}

impl Embed {
    /// A framed message of the given colour that holds nothing yet.
    pub fn new(color: u32) -> (embed: Embed)
        ensures
            embed.color == color,
            embed.title is None,
            embed.description is None,
            embed.fields@.len() == 0,
            embed.thumbnail is None,
            embed.author is None,
            !embed.timestamped,
    {
        Embed {
            color,
            title: None,
            description: None,
            fields: Vec::new(),
            thumbnail: None,
            author: None,
            timestamped: false,
        }
    }
}

/// The entries that the given names, values and layouts make, in their
/// order.
pub open spec fn fields_of(entries: Seq<(String, String, bool)>) -> Seq<Field> {
    Seq::new(
        entries.len(),
        |i: int| Field { name: entries[i].0, value: entries[i].1, inline: entries[i].2 },
    )
}

/// Makes one entry of each name, value and layout, in their order.
pub fn to_fields(entries: Vec<(String, String, bool)>) -> (fields: Vec<Field>)
    ensures
        fields@ == fields_of(entries@),
{
    let mut fields: Vec<Field> = Vec::new();
    for entry in it: entries
        invariant
            it.seq() == entries@,
            fields@ == fields_of(entries@.take(it.index() as int)),
    {
        proof {
            assert(fields@.push(Field { name: entry.0, value: entry.1, inline: entry.2 })
                =~= fields_of(entries@.take(it.index() + 1)));
        }
        fields.push(Field { name: entry.0, value: entry.1, inline: entry.2 });
    }
    proof {
        assert(entries@.take(entries@.len() as int) =~= entries@);
    }
    fields
}

} // verus!

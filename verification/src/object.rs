//! Writers for objects inside a byte buffer: a single object, arrays and
//! dictionaries.

use vstd::prelude::*;

use crate::encode::{dict_close, dict_entry, separator, sep_join, spaces, NEWLINE, LBRACKET, RBRACKET, LANGLE, RANGLE, SPACE};
use crate::primitive::{Name, Primitive};

verus! {

/// The encodings of a sequence of values.
pub open spec fn encodings<T: Primitive>(values: Seq<T>) -> Seq<Seq<u8>> {
    values.map_values(|v: T| v.encoding())
}

/// What writing the tokens `values` appends after what was already written:
/// nothing for no values, else a separator unless they are the first tokens,
/// and the values separated by spaces.
pub open spec fn tokens_enc(first: bool, values: Seq<Seq<u8>>) -> Seq<u8> {
    if values.len() == 0 {
        Seq::empty()
    } else {
        separator(first) + sep_join(values)
    }
}

/// Appends `n` spaces.
fn push_spaces(buf: &mut Vec<u8>, n: u8)
    ensures
        final(buf)@ == old(buf)@ + spaces(n as nat),
{
    let mut i: u8 = 0;
    while i < n
        invariant
            i <= n,
            buf@ == old(buf)@ + spaces(i as nat),
        decreases n - i,
    {
        buf.push(SPACE);
        i += 1;
        assert(spaces(i as nat) =~= spaces((i - 1) as nat) + seq![SPACE]);
    }
}

/// The indentation of the entries of a dictionary nested in an object
/// indented by `indent`.
pub open spec fn nested_indent(indent: u8) -> u8 {
    if indent <= 253 {
        (indent + 2) as u8
    } else {
        255
    }
}

/// The name object with the given ASCII text.
pub open spec fn name_key(s: Seq<char>) -> Seq<u8> {
    crate::encode::name_enc(crate::encode::ascii(s))
}

/// `after` is `before` with one more entry.
pub open spec fn appended_entry(before: Dict, after: Dict, key: Seq<u8>, value: Seq<u8>) -> bool {
    &&& after.buf@ == before.buf@ + dict_entry(before.indent as nat, key, value)
    &&& after.len == before.len + 1
    &&& after.indent == before.indent
}

/// Writer for a single object.
pub struct Obj<'a> {
    /// The buffer that the object is written into.
    pub buf: &'a mut Vec<u8>,
    /// The indentation of the dictionary entries around the object.
    pub indent: u8,
}

impl<'a> Obj<'a> {
    /// Start writing an object at the end of `buf`.
    pub fn direct(buf: &'a mut Vec<u8>, indent: u8) -> (o: Obj<'a>)
        ensures
            *o.buf == *old(buf),
            o.indent == indent,
            *final(o.buf) == *final(buf),
    {
        Obj { buf, indent }
    }

    /// Write a primitive object.
    pub fn primitive<T: Primitive>(self, value: T)
        ensures
            final(self.buf)@ == old(self.buf)@ + value.encoding(),
    {
        value.write(self.buf);
    }

    /// Start writing an array.
    pub fn array(self) -> (a: Array<'a>)
        ensures
            a.buf@ == old(self.buf)@ + seq![LBRACKET],
            a.indent == self.indent,
            a.len == 0,
            *final(a.buf) == *final(self.buf),
    {
        self.buf.push(LBRACKET);
        Array { buf: self.buf, indent: self.indent, len: 0 }
    }

    /// Start writing a dictionary; its entries are indented two spaces
    /// further than the object.
    pub fn dict(self) -> (d: Dict<'a>)
        ensures
            d.buf@ == old(self.buf)@ + seq![LANGLE, LANGLE],
            d.indent == nested_indent(self.indent),
            d.len == 0,
            *final(d.buf) == *final(self.buf),
    {
        self.buf.push(LANGLE);
        self.buf.push(LANGLE);
        Dict { buf: self.buf, indent: self.indent.saturating_add(2), len: 0 }
    }
}

/// Writer for an array. Write `]` with [`Array::finish`].
pub struct Array<'a> {
    /// The buffer that the array is written into.
    pub buf: &'a mut Vec<u8>,
    /// The indentation of the dictionary entries around the array.
    pub indent: u8,
    /// How many items were written.
    pub len: i32,
}

impl<'a> Array<'a> {
    /// The number of written items.
    pub fn len(&self) -> (r: i32)
        ensures
            r == self.len,
    {
        self.len
    }

    /// Whether no items were written.
    pub fn is_empty(&self) -> (r: bool)
        ensures
            r == (self.len == 0),
    {
        self.len == 0
    }

    /// Start writing an arbitrary item.
    pub fn push(&mut self) -> (o: Obj<'_>)
        requires
            old(self).len < i32::MAX,
        ensures
            o.buf@ == old(self).buf@ + separator(old(self).len == 0),
            o.indent == old(self).indent,
            final(self).buf@ == final(o.buf)@,
            final(self).len == old(self).len + 1,
            final(self).indent == old(self).indent,
            *final(final(self).buf) == *final(old(self).buf),
    {
        if self.len != 0 {
            self.buf.push(SPACE);
        }
        self.len = self.len + 1;
        Obj::direct(self.buf, self.indent)
    }

    /// Write an item with a primitive value.
    pub fn item<T: Primitive>(&mut self, value: T) -> (r: &mut Self)
        requires
            old(self).len < i32::MAX,
        ensures
            r.buf@ == old(self).buf@ + separator(old(self).len == 0) + value.encoding(),
            r.len == old(self).len + 1,
            r.indent == old(self).indent,
            *final(r.buf) == *final(old(self).buf),
            *final(self) == *final(r),
    {
        self.push().primitive(value);
        self
    }

    /// Write a sequence of items with primitive values.
    pub fn items<T: Primitive + Copy>(&mut self, values: &[T]) -> (r: &mut Self)
        requires
            0 <= old(self).len,
            old(self).len + values@.len() <= i32::MAX,
        ensures
            r.buf@ == old(self).buf@ + tokens_enc(old(self).len == 0, encodings(values@)),
            r.len == old(self).len + values@.len(),
            r.indent == old(self).indent,
            *final(r.buf) == *final(old(self).buf),
            *final(self) == *final(r),
    {
        let ghost start = self.buf@;
        let ghost len0 = self.len;
        let mut i: usize = 0;
        while i < values.len()
            invariant
                i <= values@.len(),
                self.len == len0 + i,
                0 <= len0,
                len0 + values@.len() <= i32::MAX,
                self.indent == old(self).indent,
                self.buf@ == start + tokens_enc(len0 == 0, encodings(values@.take(i as int))),
                *final(self.buf) == *final(old(self).buf),
            decreases values@.len() - i,
        {
            let v = values[i];
            self.item(v);
            i += 1;
            proof {
                let prev = encodings(values@.take(i - 1));
                assert(encodings(values@.take(i as int)) =~= prev.push(v.encoding()));
                crate::encode::lemma_sep_join_push(prev, v.encoding());
            }
        }
        assert(values@.take(i as int) =~= values@);
        self
    }

    /// Write `]`.
    pub fn finish(self)
        ensures
            final(self.buf)@ == old(self.buf)@ + seq![RBRACKET],
    {
        self.buf.push(RBRACKET);
    }
}

/// Writer for a dictionary. Write `>>` with [`Dict::finish`].
pub struct Dict<'a> {
    /// The buffer that the dictionary is written into.
    pub buf: &'a mut Vec<u8>,
    /// The indentation of the entries.
    pub indent: u8,
    /// How many entries were written.
    pub len: i32,
}

impl<'a> Dict<'a> {
    /// The number of written entries.
    pub fn len(&self) -> (r: i32)
        ensures
            r == self.len,
    {
        self.len
    }

    /// Whether no entries were written.
    pub fn is_empty(&self) -> (r: bool)
        ensures
            r == (self.len == 0),
    {
        self.len == 0
    }

    /// Start writing a pair with an arbitrary value.
    pub fn insert(&mut self, key: Name) -> (o: Obj<'_>)
        requires
            old(self).len < i32::MAX,
        ensures
            o.buf@ == old(self).buf@ + dict_entry(old(self).indent as nat, key.encoding(), Seq::empty()),
            o.indent == old(self).indent,
            final(self).buf@ == final(o.buf)@,
            final(self).len == old(self).len + 1,
            final(self).indent == old(self).indent,
            *final(final(self).buf) == *final(old(self).buf),
    {
        self.len = self.len + 1;
        let ghost start = self.buf@;
        self.buf.push(NEWLINE);
        push_spaces(self.buf, self.indent);
        key.write(self.buf);
        self.buf.push(SPACE);
        assert(self.buf@ =~= start + dict_entry(self.indent as nat, key.encoding(), Seq::empty()));
        Obj::direct(self.buf, self.indent)
    }

    /// Write a pair with a primitive value.
    pub fn pair<T: Primitive>(&mut self, key: Name, value: T) -> (r: &mut Self)
        requires
            old(self).len < i32::MAX,
        ensures
            r.buf@ == old(self).buf@ + dict_entry(old(self).indent as nat, key.encoding(), value.encoding()),
            r.len == old(self).len + 1,
            r.indent == old(self).indent,
            *final(r.buf) == *final(old(self).buf),
            *final(self) == *final(r),
    {
        let ghost start = self.buf@;
        self.insert(key).primitive(value);
        assert(self.buf@ =~= start + dict_entry(self.indent as nat, key.encoding(), value.encoding()));
        self
    }

    /// Write `>>`, on a line of its own when the dictionary holds entries.
    pub fn finish(self)
        ensures
            final(self.buf)@ == old(self.buf)@ + dict_close(self.indent as nat, self.len as int),
    {
        let ghost start = self.buf@;
        if self.len != 0 {
            self.buf.push(NEWLINE);
            push_spaces(self.buf, self.indent.saturating_sub(2));
        }
        self.buf.push(RANGLE);
        self.buf.push(RANGLE);
        assert(self.buf@ =~= start + dict_close(self.indent as nat, self.len as int));
    }
}

} // verus!

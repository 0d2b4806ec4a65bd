//! Object files and the walk through their symbols.

use vstd::prelude::*;
use crate::owner::{lemma_dispose_once, times, CBox, Disposal, Ledger, Resource};

verus! {

/// Why an object file could not be read.
#[derive(Debug)]
pub enum ObjectError {
    /// The file could not be loaded; this is the owner of the message.
    Load(CBox),
    /// The native library could not parse the file, and does not say why.
    Unknown,
}

impl ObjectError {
    /// The text of the error, where the library itself words it.
    pub fn describe(&self) -> (text: Option<&'static str>)
        ensures
            self is Unknown ==> text == Some("unknown error"),
            self is Load ==> text.is_none(),
    {
        match self {
            ObjectError::Unknown => Some("unknown error"),
            ObjectError::Load(_) => None,
        }
    }
}

/// A symbol of an object file, as it was read from the native iterator.
#[derive(Debug, PartialEq, Eq)]
pub struct Symbol {
    /// The name of this symbol.
    pub name: Vec<u8>,
    /// The address that this symbol is at.
    pub address: usize,
    /// The size of this symbol.
    pub size: usize,
}

/// An external object file that has been parsed. It owns the parsed object
/// and the buffer that the object was parsed from and reads from.
#[derive(Debug)]
pub struct ObjectFile {
    /// The owner of the parsed object.
    pub obj: CBox,
    /// The owner of the buffer behind it.
    pub buffer: CBox,
}

impl ObjectFile {
    /// The disposer calls that giving this file up makes, in order: the
    /// object first, then the buffer that it reads from.
    pub open spec fn disposals(&self) -> Seq<Disposal> {
        seq![self.obj.disposal(), self.buffer.disposal()]
    }

    /// Reads what the loading and the parsing of an object file returned.
    /// `buffer` is what the loading gave; `object` is the handle that the
    /// parsing of the buffer gave, null where it failed or was not tried.
    /// A null handle is never wrapped. Where the parsing failed, the buffer
    /// is disposed of; where it succeeded, the file keeps it.
    pub fn read(buffer: Result<CBox, CBox>, object: usize, ledger: &mut Ledger) -> (r: Result<
        ObjectFile,
        ObjectError,
    >)
        ensures
            match buffer {
                Err(text) => r == Err::<ObjectFile, ObjectError>(ObjectError::Load(text))
                    && final(ledger).calls@ == old(ledger).calls@,
                Ok(loaded) => if object == 0 {
                    r == Err::<ObjectFile, ObjectError>(ObjectError::Unknown)
                        && final(ledger).calls@ == old(ledger).calls@.push(loaded.disposal())
                } else {
                    r == Ok::<ObjectFile, ObjectError>(
                        ObjectFile {
                            obj: CBox { resource: Resource::ObjectFile, raw: object },
                            buffer: loaded,
                        },
                    ) && final(ledger).calls@ == old(ledger).calls@
                },
            },
    {
        match buffer {
            Err(text) => Err(ObjectError::Load(text)),
            Ok(loaded) => if object == 0 {
                loaded.dispose(ledger);
                Err(ObjectError::Unknown)
            } else {
                Ok(ObjectFile { obj: CBox::new(Resource::ObjectFile, object), buffer: loaded })
            },
        }
    }

    /// Returns the raw handle of the parsed object, which stays owned.
    pub fn as_ptr(&self) -> (raw: usize)
        ensures
            raw == self.obj.raw,
    {
        self.obj.as_ptr()
    }

    /// Gives the file up: the object's disposer is called, once, and then
    /// the buffer's.
    pub fn dispose(self, ledger: &mut Ledger)
        ensures
            final(ledger).calls@ == old(ledger).calls@ + self.disposals(),
            self.buffer.disposal() != self.obj.disposal() ==> times(
                final(ledger).calls@,
                self.obj.disposal(),
            ) == times(old(ledger).calls@, self.obj.disposal()) + 1,
    {
        let ObjectFile { obj, buffer } = self;
        obj.dispose(ledger);
        let ghost mid = ledger.calls@;
        buffer.dispose(ledger);
        proof {
            lemma_dispose_once(mid, self.buffer.disposal());
            assert(ledger.calls@ =~= old(ledger).calls@ + self.disposals());
        }
    }

    /// Makes an iterator through the symbols of this object file. `iter` is
    /// the handle of a native iterator of its own; the file is not changed.
    pub fn symbols(&self, iter: usize) -> (symbols: Symbols)
        requires
            iter != 0,
        ensures
            symbols.iter == (CBox { resource: Resource::SymbolIterator, raw: iter }),
            !symbols.done,
    {
        Symbols { iter: CBox::new(Resource::SymbolIterator, iter), done: false }
    }
}

/// A one-shot forward iterator through the symbols of an object file. It owns
/// the native iterator, which is disposed of once, however many symbols were
/// taken.
#[derive(Debug)]
pub struct Symbols {
    /// The owner of the native iterator.
    pub iter: CBox,
    /// Whether the end was reached. Once it was, nothing more is handed out.
    pub done: bool,
}

/// What the native iterator gives when it walks a symbol table to its end:
/// each symbol of the table in turn, and then nothing.
pub open spec fn table_reads(table: Seq<Symbol>) -> Seq<Option<Symbol>> {
    Seq::new(
        table.len() + 1,
        |i: int|
            if i < table.len() {
                Some(table[i])
            } else {
                None
            },
    )
}

impl Symbols {
    /// What one step does: the iterator after it, and what it hands out.
    /// `read` is what the native iterator gave: the symbol it stands at, or
    /// nothing at the end.
    pub open spec fn next_spec(self, read: Option<Symbol>) -> (Symbols, Option<Symbol>) {
        if self.done || read.is_none() {
            (Symbols { iter: self.iter, done: true }, None)
        } else {
            (self, read)
        }
    }

    /// The symbols that a whole walk hands out, given what the native
    /// iterator gives step by step.
    pub open spec fn walk(self, reads: Seq<Option<Symbol>>) -> Seq<Symbol>
        decreases reads.len(),
    {
        if reads.len() == 0 {
            Seq::empty()
        } else {
            let (after, out) = self.next_spec(reads[0]);
            let rest = after.walk(reads.drop_first());
            match out {
                Some(symbol) => seq![symbol] + rest,
                None => rest,
            }
        }
    }

    /// Takes one step: hands out the symbol that was read at the native
    /// iterator, or `None` at the end and for ever after it. The caller
    /// moves the native iterator on after a symbol was handed out.
    pub fn next(&mut self, read: Option<Symbol>) -> (symbol: Option<Symbol>)
        ensures
            (*final(self), symbol) == old(self).next_spec(read),
    {
        if self.done {
            None
        } else {
            match read {
                Some(symbol) => Some(symbol),
                None => {
                    self.done = true;
                    None
                },
            }
        }
    }

    /// Gives the iterator up: the native iterator is disposed of, once.
    pub fn dispose(self, ledger: &mut Ledger)
        ensures
            final(ledger).calls@ == old(ledger).calls@.push(self.iter.disposal()),
            times(final(ledger).calls@, self.iter.disposal()) == times(
                old(ledger).calls@,
                self.iter.disposal(),
            ) + 1,
    {
        let Symbols { iter, done: _ } = self;
        iter.dispose(ledger);
    }
}

/// An iterator that has reached the end hands out nothing, whatever is read.
pub proof fn lemma_walk_when_done(symbols: Symbols, reads: Seq<Option<Symbol>>)
    requires
        symbols.done,
    ensures
        symbols.walk(reads) == Seq::<Symbol>::empty(),
    decreases reads.len(),
{
    if reads.len() > 0 {
        lemma_walk_when_done(symbols.next_spec(reads[0]).0, reads.drop_first());
    }
}

/// A fresh iterator that is walked to the end of a symbol table hands out
/// the symbols of the table, each once and in the table's order.
pub proof fn lemma_walk_gives_table(symbols: Symbols, table: Seq<Symbol>)
    requires
        !symbols.done,
    ensures
        symbols.walk(table_reads(table)) == table,
    decreases table.len(),
{
    let reads = table_reads(table);
    if table.len() == 0 {
        let after = symbols.next_spec(reads[0]).0;
        lemma_walk_when_done(after, reads.drop_first());
        assert(symbols.walk(reads) =~= table);
    } else {
        let rest = table.drop_first();
        assert(reads.drop_first() =~= table_reads(rest));
        lemma_walk_gives_table(symbols, rest);
        assert(symbols.walk(reads) =~= seq![table[0]] + rest);
        assert(seq![table[0]] + rest =~= table);
    }
}

/// Two iterators over one symbol table, each with a handle of its own and
/// each walked to the end, hand out the same symbols.
pub proof fn lemma_two_walks_agree(first: Symbols, second: Symbols, table: Seq<Symbol>)
    requires
        !first.done,
        !second.done,
    ensures
        first.walk(table_reads(table)) == second.walk(table_reads(table)),
        first.walk(table_reads(table)) == table,
{
    lemma_walk_gives_table(first, table);
    lemma_walk_gives_table(second, table);
}

} // verus!

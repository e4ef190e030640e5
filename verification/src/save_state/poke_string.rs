use vstd::prelude::*;

verus! {

/// The byte that ends a name in the game's character encoding.
pub const TEXT_END: u8 = 0x50;

/// The text that starts at the beginning of `data`: the bytes before the first
/// terminator, and at most `max` of them.
pub open spec fn text_prefix(data: Seq<u8>, max: nat) -> Seq<u8>
    decreases max,
{
    if max == 0 || data.len() == 0 || data[0] == TEXT_END {
        Seq::empty()
    } else {
        seq![data[0]] + text_prefix(data.drop_first(), (max - 1) as nat)
    }
}

/// An eleven byte name field holding `text`, padded with terminators.
pub open spec fn name_field(text: Seq<u8>) -> Seq<u8> {
    Seq::new(11, |i: int| if i < text.len() { text[i] } else { TEXT_END })
}

/// A name that fits a name field and holds no terminator.
pub open spec fn is_storable_name(text: Seq<u8>) -> bool {
    text.len() <= 11 && forall|i: int| 0 <= i < text.len() ==> text[i] != TEXT_END
}

proof fn lemma_text_prefix_step(data: Seq<u8>, i: int, max: nat)
    requires
        0 <= i < data.len(),
        max > 0,
        data[i] != TEXT_END,
    ensures
        text_prefix(data.skip(i), max) == seq![data[i]] + text_prefix(
            data.skip(i + 1),
            (max - 1) as nat,
        ),
{
    assert(data.skip(i).drop_first() =~= data.skip(i + 1));
}

proof fn lemma_text_prefix_stop(data: Seq<u8>, i: int, max: nat)
    requires
        0 <= i <= data.len(),
        max == 0 || i == data.len() || data[i] == TEXT_END,
    ensures
        text_prefix(data.skip(i), max) == Seq::<u8>::empty(),
{
}

proof fn lemma_name_field_suffix(text: Seq<u8>, k: int)
    requires
        is_storable_name(text),
        0 <= k <= 11,
    ensures
        text_prefix(name_field(text).skip(k), (11 - k) as nat) == if k <= text.len() {
            text.skip(k)
        } else {
            Seq::<u8>::empty()
        },
    decreases 11 - k,
{
    let f = name_field(text);
    if k == 11 {
        if text.len() == 11 {
            assert(text.skip(11) =~= Seq::<u8>::empty());
        }
    } else if k >= text.len() {
        assert(f[k] == TEXT_END);
        if k == text.len() {
            assert(text.skip(k) =~= Seq::<u8>::empty());
        }
    } else {
        lemma_name_field_suffix(text, k + 1);
        lemma_text_prefix_step(f, k, (11 - k) as nat);
        assert(text.skip(k) =~= seq![text[k]] + text.skip(k + 1));
    }
}

/// Reading a name field back gives the name that was written into it.
pub proof fn lemma_name_field_roundtrip(text: Seq<u8>)
    requires
        is_storable_name(text),
    ensures
        text_prefix(name_field(text), 11) == text,
{
    lemma_name_field_suffix(text, 0);
    assert(name_field(text).skip(0) =~= name_field(text));
    assert(text.skip(0) =~= text);
}

/// Only the first `max` bytes of `data` matter to the text read from it.
pub proof fn lemma_text_prefix_take(data: Seq<u8>, max: nat)
    requires
        data.len() >= max,
    ensures
        text_prefix(data, max) == text_prefix(data.take(max as int), max),
    decreases max,
{
    if max > 0 && data[0] != TEXT_END {
        lemma_text_prefix_take(data.drop_first(), (max - 1) as nat);
        assert(data.take(max as int).drop_first() =~= data.drop_first().take(max - 1));
    }
}

/// Reading the name field at `pos` of bytes whose field there was written
/// with a storable name gives the name back.
pub proof fn lemma_read_name_field(data: Seq<u8>, pos: int, text: Seq<u8>)
    requires
        is_storable_name(text),
        0 <= pos,
        pos + 11 <= data.len(),
        forall|k: int| 0 <= k < 11 ==> data[pos + k] == #[trigger] name_field(text)[k],
    ensures
        text_prefix(data.skip(pos), 11) == text,
{
    lemma_text_prefix_take(data.skip(pos), 11);
    assert(data.skip(pos).take(11) =~= name_field(text));
    lemma_name_field_roundtrip(text);
}

/// A name or other short text in the game's character encoding, without its
/// terminator.
#[derive(Debug, Clone, PartialEq, Eq, PartialOrd, Ord)]
pub struct PokeString {
    bytes: Vec<u8>,
}

impl View for PokeString {
    type V = Seq<u8>;

    closed spec fn view(&self) -> Seq<u8> {
        self.bytes@
    }
}

impl PokeString {
    pub(crate) fn from_vec(bytes: Vec<u8>) -> (res: PokeString)
        ensures
            res@ == bytes@,
    {
        PokeString { bytes }
    }

    /// Reads the text at the start of `data`: the bytes before the first
    /// terminator, at most `max_len` of them.
    pub fn from_bytes(data: &[u8], max_len: usize) -> (res: PokeString)
        ensures
            res@ == text_prefix(data@, max_len as nat),
    {
        let mut bytes: Vec<u8> = Vec::new();
        let mut i: usize = 0;
        proof {
            assert(data@.skip(0) =~= data@);
        }
        while i < max_len && i < data.len() && data[i] != TEXT_END
            invariant
                i <= max_len,
                i <= data@.len(),
                text_prefix(data@, max_len as nat) == bytes@ + text_prefix(
                    data@.skip(i as int),
                    (max_len - i) as nat,
                ),
            decreases max_len - i,
        {
            proof {
                lemma_text_prefix_step(data@, i as int, (max_len - i) as nat);
            }
            bytes.push(data[i]);
            i = i + 1;
        }
        proof {
            lemma_text_prefix_stop(data@, i as int, (max_len - i) as nat);
            assert(bytes@ + Seq::<u8>::empty() =~= bytes@);
        }
        PokeString { bytes }
    }

    /// The number of bytes of the text.
    pub fn len(&self) -> (res: usize)
        ensures
            res == self@.len(),
    {
        self.bytes.len()
    }

    /// The bytes of the text.
    pub fn as_bytes(&self) -> (res: &[u8])
        ensures
            res@ == self@,
    {
        self.bytes.as_slice()
    }

    /// Whether both texts hold the same bytes.
    pub fn same_text(&self, other: &PokeString) -> (res: bool)
        ensures
            res == (self@ == other@),
    {
        if self.bytes.len() != other.bytes.len() {
            return false;
        }
        let mut i: usize = 0;
        while i < self.bytes.len()
            invariant
                self.bytes@.len() == other.bytes@.len(),
                i <= self.bytes@.len(),
                forall|j: int| 0 <= j < i ==> self.bytes@[j] == other.bytes@[j],
            decreases self.bytes@.len() - i,
        {
            if self.bytes[i] != other.bytes[i] {
                return false;
            }
            i = i + 1;
        }
        assert(self.bytes@ =~= other.bytes@);
        true
    }

    /// The eleven bytes of a name field that holds this text: its first eleven
    /// bytes, padded with terminators.
    pub fn name_field_bytes(&self) -> (res: Vec<u8>)
        ensures
            res@ == name_field(self@),
    {
        let mut res: Vec<u8> = Vec::new();
        let mut i: usize = 0;
        while i < 11
            invariant
                i <= 11,
                res@.len() == i,
                forall|j: int| 0 <= j < i ==> res@[j] == name_field(self@)[j],
            decreases 11 - i,
        {
            if i < self.bytes.len() {
                res.push(self.bytes[i]);
            } else {
                res.push(TEXT_END);
            }
            i = i + 1;
        }
        assert(res@ =~= name_field(self@));
        res
    }
}

} // verus!

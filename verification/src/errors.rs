use vstd::prelude::*;
use vstd::string::*;
use vstd::utf8::encode_utf8;

verus! {

/// The bytes of the C string that carries the error text `msg`: its UTF-8
/// encoding followed by a terminating NUL.
pub open spec fn spec_c_text(msg: Seq<char>) -> Seq<u8> {
    encode_utf8(msg).push(0u8)
}

/// Whether `msg` can be handed over as a C string: it holds no NUL character
/// (the only character whose UTF-8 encoding holds a zero byte).
pub open spec fn spec_nul_free(msg: Seq<char>) -> bool {
    !msg.contains('\0')
}

/// Interning `msg` into a cache whose entries are `cache`: the cache after
/// the call and the position of `msg` in it. A text already present keeps its
/// entry; a new text is appended.
pub open spec fn spec_intern(cache: Seq<Seq<char>>, msg: Seq<char>) -> (Seq<Seq<char>>, int) {
    if cache.contains(msg) {
        (cache, cache.index_of(msg))
    } else {
        (cache.push(msg), cache.len() as int)
    }
}

struct ErrorText {
    message: String,
    c_text: Vec<u8>,
}

/// The cache of error texts handed to `krr`. kdb+ keeps the address of an
/// error's C string, so every text is stored once and for good: an entry is
/// never changed or removed, and its C string never moves.
pub struct ErrorCache {
    entries: Vec<ErrorText>,
}

impl View for ErrorCache {
    type V = Seq<Seq<char>>;

    /// The cached texts, in the order in which they were first interned.
    closed spec fn view(&self) -> Seq<Seq<char>> {
        self.entries@.map_values(|e: ErrorText| e.message@)
    }
}

impl ErrorCache {
    /// Every text occurs once, and each entry holds the C string of its text.
    pub closed spec fn wf(&self) -> bool {
        &&& self@.no_duplicates()
        &&& forall|i: int|
            0 <= i < self.entries@.len() ==> #[trigger] self.entries@[i].c_text@ == spec_c_text(
                self.entries@[i].message@,
            )
    }

    /// An empty cache.
    pub fn new() -> (c: ErrorCache)
        ensures
            c.wf(),
            c@ == Seq::<Seq<char>>::empty(),
    {
        let c = ErrorCache { entries: Vec::new() };
        assert(c@ =~= Seq::<Seq<char>>::empty());
        c
    }

    /// The number of cached texts.
    pub fn len(&self) -> (n: usize)
        ensures
            n == self@.len(),
    {
        self.entries.len()
    }

    /// The bytes of the C string of the entry at `idx`, NUL included.
    pub fn c_text(&self, idx: usize) -> (b: &[u8])
        requires
            self.wf(),
            idx < self@.len(),
        ensures
            b@ == spec_c_text(self@[idx as int]),
    {
        self.entries[idx].c_text.as_slice()
    }

    /// Interns `msg`: returns the position of its entry, adding one when the
    /// text is new.
    pub fn intern(&mut self, msg: &str) -> (idx: usize)
        requires
            old(self).wf(),
            spec_nul_free(msg@),
        ensures
            final(self).wf(),
            (final(self)@, idx as int) == spec_intern(old(self)@, msg@),
    {
        let key = String::from_str(msg);
        let n = self.entries.len();
        let mut i: usize = 0;
        while i < n
            invariant
                n == self.entries@.len(),
                0 <= i <= n,
                key@ == msg@,
                self.wf(),
                self@ == old(self)@,
                forall|k: int| 0 <= k < i ==> self@[k] != msg@,
            decreases n - i,
        {
            if self.entries[i].message == key {
                proof {
                    assert(self@[i as int] == msg@);
                    assert(self@.contains(msg@));
                    let j = self@.index_of(msg@);
                    assert(self@.no_duplicates());
                    assert(j == i);
                }
                return i;
            }
            i = i + 1;
        }
        assert(!self@.contains(msg@));
        let bytes = msg.as_bytes();
        let mut c_text: Vec<u8> = Vec::new();
        let mut k: usize = 0;
        while k < bytes.len()
            invariant
                bytes@ == encode_utf8(msg@),
                self.wf(),
                self@ == old(self)@,
                !self@.contains(msg@),
                0 <= k <= bytes@.len(),
                c_text@ == bytes@.subrange(0, k as int),
            decreases bytes@.len() - k,
        {
            c_text.push(bytes[k]);
            k = k + 1;
        }
        assert(bytes@.subrange(0, bytes@.len() as int) == bytes@);
        c_text.push(0u8);
        let ghost old_view = self@;
        self.entries.push(ErrorText { message: key, c_text });
        assert(self@ =~= old_view.push(msg@));
        n
    }
}

/// Interning never disturbs what is cached: every earlier text keeps its
/// position, the interned text sits at the returned position, and no text
/// occurs twice.
pub proof fn lemma_intern_keeps_entries(cache: Seq<Seq<char>>, msg: Seq<char>)
    requires
        cache.no_duplicates(),
    ensures
        ({
            let (after, idx) = spec_intern(cache, msg);
            &&& cache.len() <= after.len() <= cache.len() + 1
            &&& forall|i: int| 0 <= i < cache.len() ==> #[trigger] after[i] == cache[i]
            &&& 0 <= idx < after.len()
            &&& after[idx] == msg
            &&& after.no_duplicates()
        }),
{
    if cache.contains(msg) {
        let idx = cache.index_of(msg);
        assert(0 <= idx < cache.len() && cache[idx] == msg);
    } else {
        let after = cache.push(msg);
        assert forall|i: int, j: int|
            0 <= i < after.len() && 0 <= j < after.len() && i != j implies after[i] != after[j] by {
            if i < cache.len() && j < cache.len() {
            } else if i == cache.len() {
                assert(after[j] == cache[j]);
            } else {
                assert(after[i] == cache[i]);
            }
        }
    }
}

/// Interning is idempotent: interning a text a second time leaves the cache
/// as the first time left it and gives back the same position, so `krr` with
/// the same text always hands kdb+ the same C string.
pub proof fn lemma_intern_idempotent(cache: Seq<Seq<char>>, msg: Seq<char>)
    requires
        cache.no_duplicates(),
    ensures
        spec_intern(spec_intern(cache, msg).0, msg) == spec_intern(cache, msg),
{
    lemma_intern_keeps_entries(cache, msg);
    let (after, idx) = spec_intern(cache, msg);
    assert(after.contains(msg));
    let j = after.index_of(msg);
    assert(0 <= j < after.len() && after[j] == msg);
    assert(j == idx);
}

} // verus!

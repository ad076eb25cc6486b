//! Binary codec over fixed-capacity byte buffers.
//!
//! Values are written to an [`Encoder`] and read back from a [`Decoder`].
//! Unsigned integers are little-endian on the wire; byte arrays are copied
//! verbatim. Nothing here allocates.

use vstd::prelude::*;

pub mod address;
pub mod opcode;
pub mod status_code;

verus! {

/// The little-endian encoding of `x` in `n` bytes, least significant byte first.
pub open spec fn le_bytes(x: nat, n: nat) -> Seq<u8>
    decreases n,
{
    if n == 0 {
        Seq::empty()
    } else {
        seq![(x % 256) as u8] + le_bytes(x / 256, (n - 1) as nat)
    }
}

/// The number that the bytes `s` spell in little-endian order.
pub open spec fn le_value(s: Seq<u8>) -> nat
    decreases s.len(),
{
    if s.len() == 0 {
        0
    } else {
        s[0] as nat + 256 * le_value(s.skip(1))
    }
}

/// `256^n`.
pub open spec fn pow256(n: nat) -> nat
    decreases n,
{
    if n == 0 {
        1
    } else {
        256 * pow256((n - 1) as nat)
    }
}

/// `le_bytes(x, n)` has exactly `n` bytes.
pub proof fn lemma_le_bytes_len(x: nat, n: nat)
    ensures
        le_bytes(x, n).len() == n,
    decreases n,
{
    if n > 0 {
        lemma_le_bytes_len(x / 256, (n - 1) as nat);
    }
}

/// Reading back the `n` little-endian bytes of a number below `256^n` gives that number.
pub proof fn lemma_le_value_of_bytes(x: nat, n: nat)
    requires
        x < pow256(n),
    ensures
        le_value(le_bytes(x, n)) == x,
    decreases n,
{
    if n > 0 {
        let rest = le_bytes(x / 256, (n - 1) as nat);
        let all = le_bytes(x, n);
        lemma_le_bytes_len(x / 256, (n - 1) as nat);
        assert(all.skip(1) =~= rest);
        lemma_le_value_of_bytes(x / 256, (n - 1) as nat);
    }
}

/// Writing out the number that `s` spells, in as many bytes as `s` has, gives `s` back.
pub proof fn lemma_le_bytes_of_value(s: Seq<u8>)
    ensures
        le_bytes(le_value(s), s.len()) == s,
        le_value(s) < pow256(s.len()),
    decreases s.len(),
{
    if s.len() > 0 {
        let tail = s.skip(1);
        lemma_le_bytes_of_value(tail);
        let v = le_value(s);
        assert(v % 256 == s[0] as nat && v / 256 == le_value(tail)) by (nonlinear_arith)
            requires
                v == s[0] as nat + 256 * le_value(tail),
                (s[0] as nat) < 256,
        ;
    } else {
    }
}

/// A byte sequence of at most `MAX` bytes, held in a fixed array of `MAX` bytes.
///
/// The view is the sequence of valid bytes. Contracts speak of the view:
/// what the array holds beyond the valid bytes is of no account.
#[derive(Debug)]
pub struct Buffer<const MAX: usize> {
    len: usize,
    data: [u8; MAX],
}

impl<const MAX: usize> View for Buffer<MAX> {
    type V = Seq<u8>;

    closed spec fn view(&self) -> Seq<u8> {
        self.data@.subrange(
            0,
            if self.len <= MAX {
                self.len as int
            } else {
                MAX as int
            },
        )
    }
}

/// `s` followed by as many zero bytes as bring it to `n` bytes.
pub open spec fn padded(s: Seq<u8>, n: nat) -> Seq<u8> {
    s + Seq::new((n - s.len()) as nat, |i: int| 0u8)
}

/// An array of `N` zero bytes.
fn zeroed<const N: usize>() -> (r: [u8; N])
    ensures
        forall|j: int| 0 <= j < N ==> r@[j] == 0u8,
{
    let mut r = [0u8; N];
    // What a fill of parametric length holds is not known to the verifier:
    // each byte is set once more, where it can be followed.
    let mut i: usize = 0;
    while i < N
        invariant
            i <= N,
            forall|j: int| 0 <= j < i ==> r@[j] == 0u8,
        decreases N - i,
    {
        r[i] = 0;
        i = i + 1;
    }
    r
}

/// The array whose elements are those of `s`, for an `s` of `N` elements.
pub open spec fn array_of<const N: usize>(s: Seq<u8>) -> [u8; N] {
    choose|a: [u8; N]| a@ == s
}

/// `array_of` gives back the array that a view came from.
pub proof fn lemma_array_of_view<const N: usize>(a: [u8; N])
    ensures
        array_of::<N>(a@) == a,
{
    let c = array_of::<N>(a@);
}

impl<const MAX: usize> Buffer<MAX> {
    #[verifier::type_invariant]
    spec fn within_capacity(self) -> bool {
        self.len <= MAX
    }

    /// A buffer never holds more than `MAX` bytes.
    pub proof fn lemma_bounded(&self)
        ensures
            self@.len() <= MAX,
    {
    }

    /// The buffer that a constructor makes of the bytes `s`: its view is `s`,
    /// and the unused rest of its array is zero.
    pub closed spec fn holding(s: Seq<u8>) -> Buffer<MAX> {
        Buffer { len: s.len() as usize, data: array_of::<MAX>(padded(s, MAX as nat)) }
    }

    /// The view of `holding(s)` is `s`, where `s` fits.
    pub proof fn lemma_holding_view(s: Seq<u8>)
        requires
            s.len() <= MAX,
        ensures
            Self::holding(s)@ == s,
    {
        let p = padded(s, MAX as nat);
        let witness = Self::array_with(p, MAX as nat);
        assert(witness@ =~= p);
    }

    /// There is an array of `MAX` bytes whose first `k` elements are those of `s`.
    proof fn array_with(s: Seq<u8>, k: nat) -> (a: [u8; MAX])
        requires
            s.len() == MAX,
            k <= MAX,
        ensures
            forall|j: int| 0 <= j < k ==> a@[j] == s[j],
        decreases k,
    {
        broadcast use vstd::array::group_array_axioms;

        if k == 0 {
            arbitrary()
        } else {
            let before = Self::array_with(s, (k - 1) as nat);
            vstd::array::spec_array_update(before, k - 1, s[k - 1])
        }
    }

    /// The empty buffer.
    pub fn new() -> (r: Buffer<MAX>)
        ensures
            r == Self::holding(Seq::empty()),
            r@ == Seq::<u8>::empty(),
    {
        let data = zeroed::<MAX>();
        proof {
            assert(data@ =~= padded(Seq::empty(), MAX as nat));
            lemma_array_of_view(data);
        }
        Buffer { len: 0, data }
    }

    /// The buffer that holds exactly the bytes of `value`.
    ///
    /// A source longer than `MAX` is a bug in the caller, not an input to
    /// be handled: it is excluded here rather than truncated.
    pub fn from(value: &[u8]) -> (r: Buffer<MAX>)
        requires
            value@.len() <= MAX,
        ensures
            r == Self::holding(value@),
            r@ == value@,
    {
        let len = value.len();
        let mut data = zeroed::<MAX>();
        let mut i: usize = 0;
        while i < len
            invariant
                i <= len,
                len == value@.len(),
                len <= MAX,
                forall|j: int| 0 <= j < i ==> data@[j] == value@[j],
                forall|j: int| i <= j < MAX ==> data@[j] == 0u8,
            decreases len - i,
        {
            data[i] = value[i];
            i = i + 1;
        }
        proof {
            assert(data@ =~= padded(value@, MAX as nat));
            lemma_array_of_view(data);
        }
        let r = Buffer { len, data };
        r
    }

    /// The number of valid bytes.
    pub fn len(&self) -> (n: usize)
        ensures
            n == self@.len(),
            n <= MAX,
    {
        proof {
            use_type_invariant(self);
        }
        self.len
    }

    /// The valid bytes as a slice.
    pub fn as_slice(&self) -> (r: &[u8])
        ensures
            r@ == self@,
    {
        proof {
            use_type_invariant(self);
        }
        vstd::slice::slice_subrange(self.data.as_slice(), 0, self.len)
    }
}

impl<const MAX: usize> core::ops::Deref for Buffer<MAX> {
    type Target = [u8];

    /// The valid bytes as a slice.
    fn deref(&self) -> (r: &[u8])
        ensures
            r@ == self@,
    {
        self.as_slice()
    }
}

/// The destination had too little room left for the bytes offered.
#[derive(Debug)]
pub struct EncoderFull;

/// What holds after `wire` was offered to an encoder of capacity `cap` that
/// held `before`: with enough room the encoder holds `before + wire`; without,
/// the call failed and the encoder holds `before` followed by some leading
/// part of `wire`.
pub open spec fn appended(
    before: Seq<u8>,
    cap: nat,
    wire: Seq<u8>,
    ok: bool,
    after: Seq<u8>,
) -> bool {
    if before.len() + wire.len() <= cap {
        ok && after =~= before + wire
    } else {
        &&& !ok
        &&& before.len() <= after.len() <= before.len() + wire.len()
        &&& forall|i: int| 0 <= i < after.len() ==> after[i] == (before + wire)[i]
    }
}

/// A sink for raw bytes with a fixed capacity.
pub trait Encoder {
    /// The bytes written so far.
    spec fn written(&self) -> Seq<u8>;

    /// The number of bytes the sink can hold in all.
    spec fn capacity(&self) -> nat;

    /// What is written never exceeds the capacity.
    proof fn lemma_within_capacity(&self)
        ensures
            self.written().len() <= self.capacity(),
    ;

    /// Appends `data`, or fails and changes nothing if `data` does not fit.
    fn write(&mut self, data: &[u8]) -> (r: Result<(), EncoderFull>)
        ensures
            final(self).capacity() == old(self).capacity(),
            r is Ok <==> old(self).written().len() + data@.len() <= old(self).capacity(),
            r is Ok ==> final(self).written() == old(self).written() + data@,
            r is Err ==> final(self).written() == old(self).written(),
    ;
}

/// A value with a wire form.
pub trait Encode {
    /// The bytes that stand for the value on the wire.
    spec fn wire(&self) -> Seq<u8>;

    /// Appends the wire form to `e`. Fails exactly when it does not fit.
    fn encode<E: Encoder>(&self, e: &mut E) -> (r: Result<(), EncoderFull>)
        ensures
            final(e).capacity() == old(e).capacity(),
            appended(
                old(e).written(),
                old(e).capacity(),
                self.wire(),
                r is Ok,
                final(e).written(),
            ),
    ;
}

impl<const MAX: usize> Encoder for Buffer<MAX> {
    open spec fn written(&self) -> Seq<u8> {
        self@
    }

    open spec fn capacity(&self) -> nat {
        MAX as nat
    }

    proof fn lemma_within_capacity(&self) {
    }

    fn write(&mut self, data: &[u8]) -> (r: Result<(), EncoderFull>) {
        proof {
            use_type_invariant(&*self);
        }
        let n = data.len();
        if n > MAX - self.len {
            return Err(EncoderFull);
        }
        let start = self.len;
        let mut i: usize = 0;
        while i < n
            invariant
                i <= n,
                n == data@.len(),
                start + n <= MAX,
                self.len == start,
                self.data@.subrange(0, start as int) == old(self)@,
                forall|j: int| 0 <= j < i ==> self.data@[start + j] == data@[j],
            decreases n - i,
        {
            self.data[start + i] = data[i];
            i = i + 1;
        }
        self.len = start + n;
        Ok(())
    }
}

impl Encode for u8 {
    open spec fn wire(&self) -> Seq<u8> {
        seq![*self]
    }

    fn encode<E: Encoder>(&self, e: &mut E) -> (r: Result<(), EncoderFull>)
        ensures
            r is Err ==> final(e).written() == old(e).written(),
    {
        let bytes = [*self];
        e.write(bytes.as_slice())
    }
}

impl Encode for u16 {
    open spec fn wire(&self) -> Seq<u8> {
        le_bytes(*self as nat, 2)
    }

    fn encode<E: Encoder>(&self, e: &mut E) -> (r: Result<(), EncoderFull>)
        ensures
            r is Err ==> final(e).written() == old(e).written(),
    {
        let bytes = [(*self % 256) as u8, (*self / 256) as u8];
        proof {
            reveal_with_fuel(le_bytes, 3);
        }
        e.write(bytes.as_slice())
    }
}

impl Encode for u64 {
    open spec fn wire(&self) -> Seq<u8> {
        le_bytes(*self as nat, 8)
    }

    fn encode<E: Encoder>(&self, e: &mut E) -> (r: Result<(), EncoderFull>)
        ensures
            r is Err ==> final(e).written() == old(e).written(),
    {
        let mut bytes = [0u8; 8];
        let mut rest: u64 = *self;
        let mut i: usize = 0;
        while i < 8
            invariant
                i <= 8,
                bytes@.take(i as int) + le_bytes(rest as nat, (8 - i) as nat) == self.wire(),
            decreases 8 - i,
        {
            proof {
                let k = (8 - i) as nat;
                assert(le_bytes(rest as nat, k) == seq![(rest % 256) as u8] + le_bytes(
                    rest as nat / 256,
                    (k - 1) as nat,
                ));
            }
            bytes[i] = (rest % 256) as u8;
            rest = rest / 256;
            i = i + 1;
        }
        e.write(bytes.as_slice())
    }
}

impl Encode for [u8] {
    open spec fn wire(&self) -> Seq<u8> {
        self@
    }

    fn encode<E: Encoder>(&self, e: &mut E) -> (r: Result<(), EncoderFull>)
        ensures
            r is Err ==> final(e).written() == old(e).written(),
    {
        e.write(self)
    }
}

impl<const N: usize> Encode for [u8; N] {
    open spec fn wire(&self) -> Seq<u8> {
        self@
    }

    fn encode<E: Encoder>(&self, e: &mut E) -> (r: Result<(), EncoderFull>)
        ensures
            r is Err ==> final(e).written() == old(e).written(),
    {
        e.write(self.as_slice())
    }
}

/// Why a decode failed.
#[derive(Debug)]
pub enum DecodeError {
    /// Fewer bytes remained than the value needs.
    Empty,
    /// The bytes are there but cannot be the value, for the reason given.
    Malformed(&'static str),
}

/// `after` is what is left of `before` once its first `n` bytes are taken.
pub open spec fn advanced(before: Seq<u8>, after: Seq<u8>, n: nat) -> bool {
    n <= before.len() && after =~= before.skip(n as int)
}

/// `after` is what is left of `before` once some number of its first bytes are taken.
pub open spec fn is_tail_of(after: Seq<u8>, before: Seq<u8>) -> bool {
    after.len() <= before.len() && after =~= before.skip(before.len() - after.len())
}

/// A cursor over bytes that are consumed from the front.
pub trait Decoder {
    /// The bytes not yet consumed.
    spec fn remaining(&self) -> Seq<u8>;

    /// Fills `buf` from the front of the remaining bytes and consumes them.
    /// With fewer bytes left than `buf` holds, fails with `Empty` and
    /// changes neither the cursor nor `buf`.
    fn read(&mut self, buf: &mut [u8]) -> (r: Result<(), DecodeError>)
        ensures
            final(buf)@.len() == old(buf)@.len(),
            match r {
                Ok(()) => {
                    &&& old(buf)@.len() <= old(self).remaining().len()
                    &&& final(buf)@ == old(self).remaining().take(old(buf)@.len() as int)
                    &&& final(self).remaining() == old(self).remaining().skip(
                        old(buf)@.len() as int,
                    )
                },
                Err(e) => {
                    &&& e == DecodeError::Empty
                    &&& old(self).remaining().len() < old(buf)@.len()
                    &&& final(self).remaining() == old(self).remaining()
                    &&& final(buf)@ == old(buf)@
                },
            },
    ;

    /// The number of bytes not yet consumed.
    fn available(&self) -> (n: usize)
        ensures
            n == self.remaining().len(),
    ;
}

/// A value that can be read from the front of a byte sequence.
pub trait Decode: Sized {
    /// The value at the front of `input` and the number of bytes it takes,
    /// or why there is none.
    spec fn parse(input: Seq<u8>) -> Result<(Self, nat), DecodeError>;

    /// Reads the value at the cursor. On success the cursor has moved past
    /// exactly the bytes of the value; on failure it has moved past some
    /// leading part of what was left and no further.
    fn decode<D: Decoder>(d: &mut D) -> (r: Result<Self, DecodeError>)
        ensures
            match Self::parse(old(d).remaining()) {
                Ok((v, n)) => r == Ok::<Self, DecodeError>(v) && advanced(
                    old(d).remaining(),
                    final(d).remaining(),
                    n,
                ),
                Err(e) => r == Err::<Self, DecodeError>(e) && is_tail_of(
                    final(d).remaining(),
                    old(d).remaining(),
                ),
            },
    ;
}

/// A value that is read only where the bytes say that it applies.
///
/// `Ok(None)` means that the bytes are meant for something else. It is an
/// answer, not a failure.
pub trait MaybeDecode: Sized {
    /// The value at the front of `input` and the number of bytes it takes;
    /// `None` where `input` is meant for something else; or why the value
    /// that `input` announces cannot be read.
    spec fn parse_maybe(input: Seq<u8>) -> Result<Option<(Self, nat)>, DecodeError>;

    /// Reads the value at the cursor if the bytes apply to it. Only on
    /// `Ok(Some(_))` is the cursor's position stated exactly; see
    /// [`MaybeDecoder::maybe_decode`] for the form that rolls back.
    fn maybe_decode<D: Decoder>(d: &mut D) -> (r: Result<Option<Self>, DecodeError>)
        ensures
            match Self::parse_maybe(old(d).remaining()) {
                Ok(Some((v, n))) => r == Ok::<Option<Self>, DecodeError>(Some(v)) && advanced(
                    old(d).remaining(),
                    final(d).remaining(),
                    n,
                ),
                Ok(None) => r == Ok::<Option<Self>, DecodeError>(None) && is_tail_of(
                    final(d).remaining(),
                    old(d).remaining(),
                ),
                Err(e) => r == Err::<Option<Self>, DecodeError>(e) && is_tail_of(
                    final(d).remaining(),
                    old(d).remaining(),
                ),
            },
    ;
}

/// A cursor that can try a value and stay where it was if the value does not apply.
pub trait MaybeDecoder: Decoder {
    /// Reads a `T` if the bytes apply to it. The cursor moves only on
    /// `Ok(Some(_))`: on `Ok(None)` and on failure it is left untouched.
    fn maybe_decode<T: MaybeDecode>(&mut self) -> (r: Result<Option<T>, DecodeError>) where
        Self: Sized,

        ensures
            match T::parse_maybe(old(self).remaining()) {
                Ok(Some((v, n))) => r == Ok::<Option<T>, DecodeError>(Some(v)) && advanced(
                    old(self).remaining(),
                    final(self).remaining(),
                    n,
                ),
                Ok(None) => r == Ok::<Option<T>, DecodeError>(None) && final(self).remaining()
                    == old(self).remaining(),
                Err(e) => r == Err::<Option<T>, DecodeError>(e) && final(self).remaining() == old(
                    self,
                ).remaining(),
            },
    ;
}

impl<D: Decoder + Copy> MaybeDecoder for D {
    fn maybe_decode<T: MaybeDecode>(&mut self) -> (r: Result<Option<T>, DecodeError>) {
        let mut copy = *self;
        match T::maybe_decode(&mut copy) {
            Ok(Some(v)) => {
                *self = copy;
                Ok(Some(v))
            },
            Ok(None) => Ok(None),
            Err(e) => Err(e),
        }
    }
}

impl<'a> Decoder for &'a [u8] {
    open spec fn remaining(&self) -> Seq<u8> {
        (*self)@
    }

    fn read(&mut self, buf: &mut [u8]) -> (r: Result<(), DecodeError>) {
        let n = buf.len();
        if self.len() < n {
            return Err(DecodeError::Empty);
        }
        let mut i: usize = 0;
        while i < n
            invariant
                i <= n,
                n == buf@.len(),
                n <= self@.len(),
                *self == *old(self),
                forall|j: int| 0 <= j < i ==> buf@[j] == self@[j],
            decreases n - i,
        {
            buf[i] = self[i];
            i = i + 1;
        }
        *self = vstd::slice::slice_subrange(*self, n, self.len());
        Ok(())
    }

    fn available(&self) -> (n: usize) {
        self.len()
    }
}

impl<T: Decode> MaybeDecode for T {
    open spec fn parse_maybe(input: Seq<u8>) -> Result<Option<(Self, nat)>, DecodeError> {
        match T::parse(input) {
            Ok(found) => Ok(Some(found)),
            Err(e) => Err(e),
        }
    }

    fn maybe_decode<D: Decoder>(d: &mut D) -> (r: Result<Option<Self>, DecodeError>) {
        match T::decode(d) {
            Ok(v) => Ok(Some(v)),
            Err(e) => Err(e),
        }
    }
}

impl Decode for () {
    open spec fn parse(input: Seq<u8>) -> Result<(Self, nat), DecodeError> {
        Ok(((), 0))
    }

    fn decode<D: Decoder>(d: &mut D) -> (r: Result<Self, DecodeError>)
        ensures
            r is Err ==> final(d).remaining() == old(d).remaining(),
    {
        Ok(())
    }
}

impl Decode for u8 {
    open spec fn parse(input: Seq<u8>) -> Result<(Self, nat), DecodeError> {
        if input.len() >= 1 {
            Ok((input[0], 1))
        } else {
            Err(DecodeError::Empty)
        }
    }

    fn decode<D: Decoder>(d: &mut D) -> (r: Result<Self, DecodeError>)
        ensures
            r is Err ==> final(d).remaining() == old(d).remaining(),
    {
        let mut buf = [0u8; 1];
        match d.read(&mut buf) {
            Ok(()) => Ok(buf[0]),
            Err(e) => Err(e),
        }
    }
}

impl Decode for u16 {
    open spec fn parse(input: Seq<u8>) -> Result<(Self, nat), DecodeError> {
        if input.len() >= 2 {
            Ok((le_value(input.take(2)) as u16, 2))
        } else {
            Err(DecodeError::Empty)
        }
    }

    fn decode<D: Decoder>(d: &mut D) -> (r: Result<Self, DecodeError>)
        ensures
            r is Err ==> final(d).remaining() == old(d).remaining(),
    {
        let mut buf = [0u8; 2];
        match d.read(&mut buf) {
            Ok(()) => {
                proof {
                    lemma_le_value_pair(buf@);
                }
                Ok(buf[0] as u16 + 256 * (buf[1] as u16))
            },
            Err(e) => Err(e),
        }
    }
}

/// Two bytes spell `low + 256 * high`.
pub proof fn lemma_le_value_pair(s: Seq<u8>)
    requires
        s.len() == 2,
    ensures
        le_value(s) == s[0] as nat + 256 * (s[1] as nat),
{
    reveal_with_fuel(le_value, 3);
}

impl<const N: usize> Decode for [u8; N] {
    open spec fn parse(input: Seq<u8>) -> Result<(Self, nat), DecodeError> {
        if input.len() >= N {
            Ok((array_of::<N>(input.take(N as int)), N as nat))
        } else {
            Err(DecodeError::Empty)
        }
    }

    fn decode<D: Decoder>(d: &mut D) -> (r: Result<Self, DecodeError>)
        ensures
            r is Err ==> final(d).remaining() == old(d).remaining(),
    {
        let mut buf = [0u8; N];
        match d.read(&mut buf) {
            Ok(()) => {
                proof {
                    lemma_array_of_view(buf);
                }
                Ok(buf)
            },
            Err(e) => Err(e),
        }
    }
}

impl<const MAX: usize> Decode for Buffer<MAX> {
    open spec fn parse(input: Seq<u8>) -> Result<(Self, nat), DecodeError> {
        if input.len() > MAX {
            Err(
                DecodeError::Malformed(
                    "there are more bytes available than can fit in the target buffer",
                ),
            )
        } else {
            Ok((Buffer::<MAX>::holding(input), input.len()))
        }
    }

    fn decode<D: Decoder>(d: &mut D) -> (r: Result<Self, DecodeError>)
        ensures
            r is Err ==> final(d).remaining() == old(d).remaining(),
    {
        let n = d.available();
        if n > MAX {
            return Err(
                DecodeError::Malformed(
                    "there are more bytes available than can fit in the target buffer",
                ),
            );
        }
        let mut data = zeroed::<MAX>();
        let whole: &mut [u8] = &mut data;
        let (head, tail) = whole.split_at_mut(n);
        match d.read(head) {
            Ok(()) => {
                assert(data@ =~= padded(old(d).remaining(), MAX as nat));
                proof {
                    lemma_array_of_view(data);
                }
                Ok(Buffer { len: n, data })
            },
            Err(e) => Err(e),
        }
    }
}

/// `v` is read back from its own wire form, whatever follows it.
pub open spec fn round_trips<T: Encode + Decode>(v: T, rest: Seq<u8>) -> bool {
    T::parse(v.wire() + rest) == Ok::<(T, nat), DecodeError>((v, v.wire().len()))
}

/// A byte is read back from its wire form.
pub proof fn lemma_u8_round_trips(v: u8, rest: Seq<u8>)
    ensures
        round_trips(v, rest),
{
}

/// A 16-bit integer is read back from its wire form.
pub proof fn lemma_u16_round_trips(v: u16, rest: Seq<u8>)
    ensures
        round_trips(v, rest),
{
    lemma_le_bytes_len(v as nat, 2);
    assert((v.wire() + rest).take(2) =~= v.wire());
    assert(pow256(2) == 65536) by {
        reveal_with_fuel(pow256, 3);
    }
    lemma_le_value_of_bytes(v as nat, 2);
}

/// A byte array is read back from its wire form.
pub proof fn lemma_array_round_trips<const N: usize>(v: [u8; N], rest: Seq<u8>)
    ensures
        round_trips(v, rest),
{
    assert((v.wire() + rest).take(N as int) =~= v@);
    lemma_array_of_view(v);
}

} // verus!

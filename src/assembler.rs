//! An append-only encoder for a hand-picked subset of x86-32 instructions.
use vstd::prelude::*;

verus! {

/// The four bytes of `value`, least significant first.
pub open spec fn le_u32(value: u32) -> Seq<u8> {
    seq![
        (value & 0xff) as u8,
        ((value >> 8) & 0xff) as u8,
        ((value >> 16) & 0xff) as u8,
        ((value >> 24) & 0xff) as u8,
    ]
}

/// The four bytes of `le_u32(value)` read back least significant first give
/// `value` again.
pub proof fn lemma_le_u32_value(value: u32)
    ensures
        value == le_u32(value)[0] + 256 * le_u32(value)[1] + 65536 * le_u32(value)[2]
            + 16777216 * le_u32(value)[3],
{
    let b0 = value & 0xff;
    let b1 = (value >> 8) & 0xff;
    let b2 = (value >> 16) & 0xff;
    let b3 = (value >> 24) & 0xff;
    assert(b0 <= 0xff && b1 <= 0xff && b2 <= 0xff && b3 <= 0xff) by (bit_vector)
        requires
            b0 == value & 0xff,
            b1 == (value >> 8) & 0xff,
            b2 == (value >> 16) & 0xff,
            b3 == (value >> 24) & 0xff,
    ;
    assert(value == (b0 | (b1 << 8) | (b2 << 16) | (b3 << 24))) by (bit_vector)
        requires
            b0 == value & 0xff,
            b1 == (value >> 8) & 0xff,
            b2 == (value >> 16) & 0xff,
            b3 == (value >> 24) & 0xff,
    ;
    assert((b0 | (b1 << 8) | (b2 << 16) | (b3 << 24)) == b0 + b1 * 256 + b2 * 65536 + b3
        * 16777216) by (bit_vector)
        requires
            b0 <= 0xff,
            b1 <= 0xff,
            b2 <= 0xff,
            b3 <= 0xff,
    ;
    assert(le_u32(value)[0] == b0 && le_u32(value)[1] == b1 && le_u32(value)[2] == b2
        && le_u32(value)[3] == b3);
}

/// `mov eax, imm32`
pub open spec fn enc_mov_eax_imm_32(value: u32) -> Seq<u8> {
    seq![0xb8u8] + le_u32(value)
}

/// `push eax`
pub open spec fn enc_push_eax() -> Seq<u8> {
    seq![0x50u8]
}

/// `call eax`
pub open spec fn enc_call_eax() -> Seq<u8> {
    seq![0xffu8, 0xd0u8]
}

/// `push ebp`
pub open spec fn enc_push_ebp() -> Seq<u8> {
    seq![0x55u8]
}

/// `pop ebp`
pub open spec fn enc_pop_ebp() -> Seq<u8> {
    seq![0x5du8]
}

/// `mov ebp, esp`
pub open spec fn enc_mov_ebp_esp() -> Seq<u8> {
    seq![0x89u8, 0xe5u8]
}

/// `mov esp, ebp`
pub open spec fn enc_mov_esp_ebp() -> Seq<u8> {
    seq![0x89u8, 0xecu8]
}

/// `add esp, imm8`
pub open spec fn enc_add_esp_imm_u8(value: u8) -> Seq<u8> {
    seq![0x83u8, 0xc4u8, value]
}

/// `sub esp, imm8`
pub open spec fn enc_sub_esp_imm_u8(value: u8) -> Seq<u8> {
    seq![0x83u8, 0xecu8, value]
}

/// `ret`
pub open spec fn enc_ret() -> Seq<u8> {
    seq![0xc3u8]
}

/// The argument pushes of a call: the last argument first, each one as
/// `mov eax, imm32; push eax`, so that the callee finds them left to right
/// at ascending stack offsets.
pub open spec fn enc_push_args(args: Seq<u32>) -> Seq<u8>
    decreases args.len(),
{
    if args.len() == 0 {
        Seq::empty()
    } else {
        enc_push_args(args.drop_first()) + enc_mov_eax_imm_32(args[0]) + enc_push_eax()
    }
}

/// Stack space reserved before a call: nothing when none is asked for.
pub open spec fn enc_reserve(space: u8) -> Seq<u8> {
    if space == 0 {
        Seq::empty()
    } else {
        enc_sub_esp_imm_u8(space)
    }
}

/// Stack space given back after a call: nothing when none was reserved.
pub open spec fn enc_restore(space: u8) -> Seq<u8> {
    if space == 0 {
        Seq::empty()
    } else {
        enc_add_esp_imm_u8(space)
    }
}

/// A complete callee-pops call of the native function at `target`.
pub open spec fn enc_call_native(target: u32, args: Seq<u32>, space: u8) -> Seq<u8> {
    enc_reserve(space) + enc_push_args(args) + enc_mov_eax_imm_32(target) + enc_call_eax()
        + enc_restore(space)
}

/// A growable instruction stream; its view is the bytes emitted so far.
pub struct Assembler {
    bytes: Vec<u8>,
}

impl View for Assembler {
    type V = Seq<u8>;

    closed spec fn view(&self) -> Seq<u8> {
        self.bytes@
    }
}

impl Assembler {
    /// An empty instruction stream.
    pub fn new() -> (r: Assembler)
        ensures
            r@ == Seq::<u8>::empty(),
    {
        Assembler { bytes: Vec::new() }
    }

    /// Appends `mov eax, imm32`: load a 32-bit immediate into the accumulator.
    pub fn mov_eax_imm_32(&mut self, value: u32)
        ensures
            final(self)@ == old(self)@ + enc_mov_eax_imm_32(value),
    {
        self.bytes.push(0xb8);
        self.bytes.push((value & 0xff) as u8);
        self.bytes.push(((value >> 8) & 0xff) as u8);
        self.bytes.push(((value >> 16) & 0xff) as u8);
        self.bytes.push(((value >> 24) & 0xff) as u8);
        assert(self@ =~= old(self)@ + enc_mov_eax_imm_32(value));
    }

    /// Appends `push eax`.
    pub fn push_eax(&mut self)
        ensures
            final(self)@ == old(self)@ + enc_push_eax(),
    {
        self.bytes.push(0x50);
        assert(self@ =~= old(self)@ + enc_push_eax());
    }

    /// Appends `call eax`: an indirect call through the accumulator.
    pub fn call_eax(&mut self)
        ensures
            final(self)@ == old(self)@ + enc_call_eax(),
    {
        self.bytes.push(0xff);
        self.bytes.push(0xd0);
        assert(self@ =~= old(self)@ + enc_call_eax());
    }

    /// Appends `push ebp`.
    pub fn push_ebp(&mut self)
        ensures
            final(self)@ == old(self)@ + enc_push_ebp(),
    {
        self.bytes.push(0x55);
        assert(self@ =~= old(self)@ + enc_push_ebp());
    }

    /// Appends `pop ebp`.
    pub fn pop_ebp(&mut self)
        ensures
            final(self)@ == old(self)@ + enc_pop_ebp(),
    {
        self.bytes.push(0x5d);
        assert(self@ =~= old(self)@ + enc_pop_ebp());
    }

    /// Appends `mov ebp, esp`: the frame pointer takes the stack pointer.
    pub fn mov_ebp_esp(&mut self)
        ensures
            final(self)@ == old(self)@ + enc_mov_ebp_esp(),
    {
        self.bytes.push(0x89);
        self.bytes.push(0xe5);
        assert(self@ =~= old(self)@ + enc_mov_ebp_esp());
    }

    /// Appends `mov esp, ebp`: the stack pointer takes the frame pointer.
    pub fn mov_esp_ebp(&mut self)
        ensures
            final(self)@ == old(self)@ + enc_mov_esp_ebp(),
    {
        self.bytes.push(0x89);
        self.bytes.push(0xec);
        assert(self@ =~= old(self)@ + enc_mov_esp_ebp());
    }

    /// Appends `add esp, imm8`: releases `value` bytes of stack.
    pub fn add_esp_imm_u8(&mut self, value: u8)
        ensures
            final(self)@ == old(self)@ + enc_add_esp_imm_u8(value),
    {
        self.bytes.push(0x83);
        self.bytes.push(0xc4);
        self.bytes.push(value);
        assert(self@ =~= old(self)@ + enc_add_esp_imm_u8(value));
    }

    /// Appends `sub esp, imm8`: reserves `value` bytes of stack.
    pub fn sub_esp_imm_u8(&mut self, value: u8)
        ensures
            final(self)@ == old(self)@ + enc_sub_esp_imm_u8(value),
    {
        self.bytes.push(0x83);
        self.bytes.push(0xec);
        self.bytes.push(value);
        assert(self@ =~= old(self)@ + enc_sub_esp_imm_u8(value));
    }

    /// Appends `ret`.
    pub fn ret(&mut self)
        ensures
            final(self)@ == old(self)@ + enc_ret(),
    {
        self.bytes.push(0xc3);
        assert(self@ =~= old(self)@ + enc_ret());
    }

    /// Appends a call of the native function whose address is `target`,
    /// passing `args` under the callee-pops convention. When `space` is not
    /// zero, that many bytes of stack are reserved around the call and given
    /// back after it; the callee itself removes the arguments.
    pub fn call_native(&mut self, target: u32, args: &[u32], space: u8)
        ensures
            final(self)@ == old(self)@ + enc_call_native(target, args@, space),
    {
        if space != 0 {
            self.sub_esp_imm_u8(space);
        }
        assert(self@ =~= old(self)@ + enc_reserve(space));
        let ghost start = self@;
        let mut i: usize = args.len();
        while i > 0
            invariant
                i <= args@.len(),
                self@ == start + enc_push_args(args@.subrange(i as int, args@.len() as int)),
            decreases i,
        {
            i = i - 1;
            self.mov_eax_imm_32(args[i]);
            self.push_eax();
            let ghost rest = args@.subrange(i as int, args@.len() as int);
            assert(rest.drop_first() =~= args@.subrange(i + 1, args@.len() as int));
            assert(self@ =~= start + enc_push_args(rest));
        }
        assert(args@.subrange(0, args@.len() as int) =~= args@);
        self.mov_eax_imm_32(target);
        self.call_eax();
        if space != 0 {
            self.add_esp_imm_u8(space);
        }
        assert(self@ =~= old(self)@ + enc_call_native(target, args@, space));
    }

    /// The bytes emitted so far, in emission order.
    pub fn bytes(&self) -> (r: &[u8])
        ensures
            r@ == self@,
    {
        self.bytes.as_slice()
    }
}

} // verus!

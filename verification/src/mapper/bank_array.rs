use vstd::prelude::*;

verus! {

/**
 * BankArray is a flexible, efficient and general implementation of the bank-switching
 * mechanism seen in many memory managers.
 *
 * The BankArray consists of a collection of "banks" that are windows into a larger array,
 * data. The BankArray has a size, bank_size (specified in terms of its log: it must be a power
 * of two, in bytes), a base_address it accepts values from, and a list of banks, which control
 * memory from base_address in that order. So:
 *
 * bank 0 handles addresses in [base_address, base_address + bank_size)
 * bank 1 handles [base_address + bank_size, base_address + bank_size*2)
 * bank 2 handles [base_address + bank_size*2, base_address + bank_size*3)
 * etc.
 *
 * Each bank maps to a subarray of data of similar size. We similarly assume that data is split
 * into banks, starting at 0, of the given size.
 */
pub struct BankArray {
    bank_size_log: usize,
    bank_size: usize,
    bank_size_mask: usize,
    banks: Vec<usize>,
    base_address: usize,
    data: Vec<u8>,
}

pub open spec fn pow2(log: nat) -> nat
    decreases log,
{
    if log == 0 {
        1
    } else {
        2 * pow2((log - 1) as nat)
    }
}

pub proof fn lemma_size_positive(b: &BankArray)
    ensures
        b.size() >= 1,
{
    lemma_pow2_facts(b.size_log());
}

pub proof fn lemma_data_banks_positive(b: &BankArray)
    requires
        b.wf(),
    ensures
        b.data_banks() >= 1,
        b.contents().len() == b.data_banks() * b.size(),
        b.contents().len() > 0,
        b.contents().len() % b.size() == 0,
        b.contents().len() <= usize::MAX,
{
    lemma_pow2_facts(b.size_log());
    lemma_div_positive(b.contents().len() as int, b.size() as int);
    vstd::arithmetic::div_mod::lemma_fundamental_div_mod(b.contents().len() as int, b.size() as int);
    vstd::arithmetic::mul::lemma_mul_is_commutative(b.data_banks() as int, b.size() as int);
}

/// A length that is a multiple of twice `m` is a multiple of `m`.
pub proof fn lemma_multiple_of_double(len: int, m: int)
    requires
        m > 0,
        len % (2 * m) == 0,
    ensures
        len % m == 0,
{
    let q = len / (2 * m);
    vstd::arithmetic::div_mod::lemma_fundamental_div_mod(len, 2 * m);
    assert(len == (2 * q) * m) by (nonlinear_arith)
        requires
            len == (2 * m) * q + len % (2 * m),
            len % (2 * m) == 0,
    ;
    vstd::arithmetic::div_mod::lemma_mod_multiples_basic(2 * q, m);
}

/// The bank sizes in common use.
pub proof fn lemma_pow2_values()
    ensures
        pow2(10) == 1024,
        pow2(12) == 4096,
        pow2(13) == 8192,
        pow2(14) == 16384,
        pow2(15) == 32768,
{
    reveal_with_fuel(pow2, 16);
}

proof fn lemma_pow2_facts(log: nat)
    ensures
        pow2(log) >= 1,
    decreases log,
{
    if log > 0 {
        lemma_pow2_facts((log - 1) as nat);
    }
}

proof fn lemma_shift_is_pow2(log: usize)
    requires
        log < 32,
    ensures
        (1usize << log) as nat == pow2(log as nat),
    decreases log,
{
    if log == 0 {
        assert(1usize << 0usize == 1) by (bit_vector);
    } else {
        lemma_shift_is_pow2((log - 1) as usize);
        let prev = (log - 1) as usize;
        assert((1usize << log) == 2 * (1usize << prev)) by (bit_vector)
            requires
                1 <= log < 32,
                prev == log - 1,
        ;
    }
}

impl BankArray {
    /// The number of bytes in each bank.
    pub open spec fn size(&self) -> nat {
        pow2(self.size_log())
    }

    pub closed spec fn base(&self) -> nat {
        self.base_address as nat
    }

    /// The offset into the backing data of each bank.
    pub closed spec fn bank_offsets(&self) -> Seq<usize> {
        self.banks@
    }

    /// The backing data.
    pub closed spec fn contents(&self) -> Seq<u8> {
        self.data@
    }

    pub closed spec fn size_log(&self) -> nat {
        self.bank_size_log as nat
    }

    /// The number of banks' worth of data.
    pub open spec fn data_banks(&self) -> nat {
        self.contents().len() / self.size()
    }

    pub closed spec fn wf(&self) -> bool {
        &&& self.bank_size_log < 32
        &&& self.bank_size as nat == pow2(self.bank_size_log as nat)
        &&& self.bank_size_mask == self.bank_size - 1
        &&& self.data@.len() > 0
        &&& self.data@.len() % self.bank_size as nat == 0
        &&& self.data@.len() <= usize::MAX
        &&& self.base_address <= 0xffff
        &&& forall|i: int|
            0 <= i < self.banks@.len() ==> #[trigger] self.banks@[i] % self.bank_size == 0
                && self.banks@[i] < self.data@.len()
    }

    /// The addresses that fall into one of the banks.
    pub open spec fn covers(&self, address: u16) -> bool {
        &&& address >= self.base()
        &&& (address - self.base()) / (self.size() as int) < self.bank_offsets().len()
    }

    /// Where in the backing data a covered address lands.
    pub open spec fn data_index(&self, address: u16) -> int {
        let offset = address - self.base();
        self.bank_offsets()[offset / (self.size() as int)] + offset % (self.size() as int)
    }

    /// What a read of `address` returns: the mapped byte, or 0 below the base address.
    pub open spec fn value_at(&self, address: u16) -> u8 {
        if address < self.base() {
            0
        } else {
            self.contents()[self.data_index(address)]
        }
    }

    pub open spec fn readable(&self, address: u16) -> bool {
        address < self.base() || self.covers(address)
    }

    pub proof fn lemma_index_in_range(&self, address: u16)
        requires
            self.wf(),
            self.covers(address),
        ensures
            0 <= self.data_index(address) < self.contents().len(),
    {
        let offset = address - self.base();
        let sz = self.size() as int;
        let b = offset / sz;
        let off = self.banks@[b] as int;
        let len = self.data@.len() as int;
        assert(sz > 0) by {
            lemma_pow2_facts(self.bank_size_log as nat);
        }
        assert(self.banks@[b] % self.bank_size == 0 && self.banks@[b] < self.data@.len());
        assert(off % sz == 0);
        lemma_aligned_plus(off, offset % sz, sz, len);
    }

    pub fn new_ram(base_address: u16, bank_size_log: usize, data_size: usize, num_banks: usize) -> (r:
        BankArray)
        requires
            bank_size_log <= data_size <= 16,
        ensures
            r.wf(),
            r.base() == base_address,
            r.size_log() == bank_size_log,
            r.contents() == Seq::new(pow2(data_size as nat), |i: int| 0u8),
            r.bank_offsets() == Seq::new(num_banks as nat, |i: int| 0usize),
    {
        proof {
            lemma_shift_is_pow2(data_size);
            lemma_shift_is_pow2(bank_size_log);
            lemma_pow2_divides(bank_size_log as nat, data_size as nat);
            lemma_pow2_facts(data_size as nat);
        }
        let data = vec![0u8; 1usize << data_size];
        assert(data@ == Seq::new(pow2(data_size as nat), |i: int| 0u8));
        BankArray::new(base_address, bank_size_log, data, num_banks)
    }

    /// Creates a bank array over `data`, every bank initially showing the first bank of data.
    pub fn new(base_address: u16, bank_size_log: usize, data: Vec<u8>, num_banks: usize) -> (r:
        BankArray)
        requires
            bank_size_log < 32,
            data@.len() > 0,
            data@.len() % pow2(bank_size_log as nat) == 0,
        ensures
            r.wf(),
            r.base() == base_address,
            r.size_log() == bank_size_log,
            r.contents() == data@,
            r.bank_offsets() == Seq::new(num_banks as nat, |i: int| 0usize),
    {
        let base_address = base_address as usize;
        let _data_len = data.len();
        proof {
            lemma_shift_is_pow2(bank_size_log);
            lemma_pow2_facts(bank_size_log as nat);
        }
        let bank_size = 1usize << bank_size_log;
        let banks = vec![0usize; num_banks];
        assert(banks@ =~= Seq::new(num_banks as nat, |i: int| 0usize));
        let r = BankArray {
            base_address,
            bank_size_log,
            bank_size,
            bank_size_mask: bank_size - 1,
            banks,
            data,
        };
        assert forall|j: int| 0 <= j < r.banks@.len() implies #[trigger] r.banks@[j] % r.bank_size
            == 0 && r.banks@[j] < r.data@.len() by {
            assert(r.banks@[j] == 0);
        }
        r
    }

    /// Points `bank` at bank number `value` of the data, which must exist.
    pub fn set_bank(&mut self, bank: u8, value: u8)
        requires
            old(self).wf(),
            (bank as int) < old(self).bank_offsets().len(),
            (value as nat) * old(self).size() < old(self).contents().len(),
        ensures
            final(self).wf(),
            final(self).bank_offsets() == old(self).bank_offsets().update(
                bank as int,
                ((value as nat) * old(self).size()) as usize,
            ),
            final(self).contents() == old(self).contents(),
            final(self).base() == old(self).base(),
            final(self).size_log() == old(self).size_log(),
    {
        proof {
            lemma_pow2_facts(self.bank_size_log as nat);
            vstd::arithmetic::div_mod::lemma_mod_multiples_basic(value as int, self.bank_size as int);
        }
        let offset = value as usize * self.bank_size;
        self.banks[bank as usize] = offset;
        proof {
            assert forall|i: int| 0 <= i < self.banks@.len() implies #[trigger] self.banks@[i]
                % self.bank_size == 0 && self.banks@[i] < self.data@.len() by {
                if i != bank as int {
                    assert(self.banks@[i] == old(self).banks@[i]);
                }
            }
        }
    }

    /// Points `bank` at the bank `-value` banks from the end of the data.
    pub fn set_bank_from_end(&mut self, bank: u8, value: i8)
        requires
            old(self).wf(),
            (bank as int) < old(self).bank_offsets().len(),
            value < 0,
            -value <= old(self).bank_offsets().len(),
            -value <= old(self).data_banks(),
        ensures
            final(self).wf(),
            final(self).bank_offsets() == old(self).bank_offsets().update(
                bank as int,
                (old(self).contents().len() - old(self).size() * (-value)) as usize,
            ),
            final(self).contents() == old(self).contents(),
            final(self).base() == old(self).base(),
            final(self).size_log() == old(self).size_log(),
    {
        let count = (-(value as i16)) as usize;
        proof {
            lemma_pow2_facts(self.bank_size_log as nat);
            lemma_bank_from_end(count as int, self.data@.len() as int, self.bank_size as int);
        }
        self.banks[bank as usize] = self.data.len() - self.bank_size * count;
        proof {
            assert forall|i: int| 0 <= i < self.banks@.len() implies #[trigger] self.banks@[i]
                % self.bank_size == 0 && self.banks@[i] < self.data@.len() by {
                if i != bank as int {
                    assert(self.banks@[i] == old(self).banks@[i]);
                }
            }
        }
    }

    /// Reads through the banks; addresses below the base address read as 0.
    pub fn read(&self, address: u16) -> (r: u8)
        requires
            self.wf(),
            self.readable(address),
        ensures
            r == self.value_at(address),
    {
        let usize_addr = address as usize;
        if usize_addr >= self.base_address {
            proof {
                self.lemma_index_in_range(address);
            }
            let index = self.map_address(usize_addr - self.base_address);
            self.data[index]
        } else {
            0
        }
    }

    /// Copies `dest.len()` bytes starting at `address` out of a single bank.
    pub fn read_slice(&self, address: u16, dest: &mut [u8])
        requires
            self.wf(),
            self.covers(address),
            (address - self.base()) % (self.size() as int) + old(dest)@.len() <= self.size(),
        ensures
            final(dest)@ == self.contents().subrange(
                self.data_index(address),
                self.data_index(address) + old(dest)@.len(),
            ),
    {
        proof {
            self.lemma_index_in_range(address);
            lemma_pow2_facts(self.bank_size_log as nat);
        }
        let index = self.map_address(address as usize - self.base_address);
        let n = dest.len();
        proof {
            let offset = address - self.base();
            let sz = self.size() as int;
            let off = self.banks@[offset / sz] as int;
            assert(self.banks@[offset / sz] % self.bank_size == 0);
            lemma_aligned_span(off, offset % sz, n as int, sz, self.data@.len() as int);
            assert(index == off + offset % sz);
        }
        let mut i: usize = 0;
        while i < n
            invariant
                self.wf(),
                i <= n,
                n == dest@.len(),
                index as int == self.data_index(address),
                index + n <= self.data@.len(),
                forall|j: int| 0 <= j < i ==> dest@[j] == self.data@[index + j],
            decreases n - i,
        {
            dest[i] = self.data[index + i];
            i = i + 1;
        }
        assert(dest@ =~= self.contents().subrange(
            self.data_index(address),
            self.data_index(address) + n,
        ));
    }

    /// Writes through the banks; writes below the base address are ignored.
    pub fn write(&mut self, address: u16, value: u8)
        requires
            old(self).wf(),
            old(self).readable(address),
        ensures
            final(self).wf(),
            final(self).contents() == if address < old(self).base() {
                old(self).contents()
            } else {
                old(self).contents().update(old(self).data_index(address), value)
            },
            final(self).bank_offsets() == old(self).bank_offsets(),
            final(self).base() == old(self).base(),
            final(self).size_log() == old(self).size_log(),
    {
        let usize_addr = address as usize;
        if usize_addr >= self.base_address {
            proof {
                self.lemma_index_in_range(address);
            }
            let index = self.map_address(usize_addr - self.base_address);
            self.data[index] = value;
        }
    }

    /* a bank number comes from the high bits of the offset, the position in the bank from
     * the low bits */
    fn map_address(&self, address: usize) -> (r: usize)
        requires
            self.wf(),
            address <= 0xffff,
            (address as int) / (self.size() as int) < self.bank_offsets().len(),
        ensures
            r == self.bank_offsets()[(address as int) / (self.size() as int)] + (address as int) % (
            self.size() as int),
            r < self.contents().len(),
    {
        proof {
            lemma_pow2_facts(self.bank_size_log as nat);
            let sz = self.bank_size as int;
            let off = self.banks@[(address as int) / sz] as int;
            assert(self.banks@[(address as int) / sz] % self.bank_size == 0);
            lemma_aligned_plus(off, address as int % sz, sz, self.data@.len() as int);
        }
        self.banks[address / self.bank_size] + address % self.bank_size
    }

    /**
     * Changes the size of the banks to a new value, and reinitializes the banks' data, setting
     * them all to the first bank.
     *
     * The bank size is specified by its log, bank_size_log, so it must be a power of two.
     * It must cleanly divide the data size.
     *
     * If the new bank_size_log is the same as the old one, this has no effect. (It does not
     * clear the banks.)
     */
    pub fn change_bank_size(&mut self, bank_size_log: usize, num_banks: usize)
        requires
            old(self).wf(),
            bank_size_log < 32,
            old(self).contents().len() % pow2(bank_size_log as nat) == 0,
        ensures
            final(self).wf(),
            final(self).contents() == old(self).contents(),
            final(self).base() == old(self).base(),
            final(self).size_log() == bank_size_log,
            final(self).bank_offsets() == if bank_size_log == old(self).size_log() {
                old(self).bank_offsets()
            } else {
                Seq::new(num_banks as nat, |i: int| 0usize)
            },
    {
        if bank_size_log != self.bank_size_log {
            proof {
                lemma_shift_is_pow2(bank_size_log);
                lemma_pow2_facts(bank_size_log as nat);
            }
            let bank_size = 1usize << bank_size_log;
            self.bank_size_log = bank_size_log;
            self.bank_size = bank_size;
            self.bank_size_mask = self.bank_size - 1;

            self.banks.clear();
            let mut i: usize = 0;
            while i < num_banks
                invariant
                    i <= num_banks,
                    self.data@ == old(self).data@,
                    self.base_address == old(self).base_address,
                    self.bank_size_log == bank_size_log,
                    self.bank_size == bank_size,
                    self.bank_size_mask == bank_size - 1,
                    bank_size as nat == pow2(bank_size_log as nat),
                    self.banks@ == Seq::new(i as nat, |j: int| 0usize),
                decreases num_banks - i,
            {
                self.banks.push(0);
                i = i + 1;
                assert(self.banks@ =~= Seq::new(i as nat, |j: int| 0usize));
            }
            assert forall|j: int| 0 <= j < self.banks@.len() implies #[trigger] self.banks@[j]
                % self.bank_size == 0 && self.banks@[j] < self.data@.len() by {
                assert(self.banks@[j] == 0);
            }
        }
    }
}

proof fn lemma_aligned_plus(off: int, r: int, sz: int, len: int)
    requires
        sz > 0,
        off >= 0,
        off % sz == 0,
        off < len,
        len % sz == 0,
        0 <= r,
        r < sz,
    ensures
        off + r < len,
{
    lemma_aligned_span(off, r, 1, sz, len);
}

proof fn lemma_aligned_span(off: int, r: int, n: int, sz: int, len: int)
    requires
        sz > 0,
        off >= 0,
        off % sz == 0,
        off < len,
        len % sz == 0,
        0 <= r,
        r + n <= sz,
    ensures
        off + r + n <= len,
{
    let k = off / sz;
    let m = len / sz;
    assert(off == k * sz) by (nonlinear_arith)
        requires
            off % sz == 0,
            sz > 0,
            k == off / sz,
    ;
    assert(len == m * sz) by (nonlinear_arith)
        requires
            len % sz == 0,
            sz > 0,
            m == len / sz,
    ;
    assert(k < m) by (nonlinear_arith)
        requires
            off == k * sz,
            len == m * sz,
            off < len,
            sz > 0,
    ;
    assert((k + 1) * sz <= m * sz) by (nonlinear_arith)
        requires
            k < m,
            sz > 0,
    ;
    assert((k + 1) * sz == k * sz + sz) by (nonlinear_arith);
}

proof fn lemma_div_positive(len: int, sz: int)
    requires
        sz > 0,
        len > 0,
        len % sz == 0,
    ensures
        len / sz > 0,
{
    assert(len / sz > 0) by (nonlinear_arith)
        requires
            sz > 0,
            len > 0,
            len % sz == 0,
    ;
}

proof fn lemma_bank_start(w: int, len: int, sz: int)
    requires
        sz > 0,
        0 <= w < len / sz,
        len % sz == 0,
    ensures
        w * sz < len,
        (w * sz) % sz == 0,
        w * sz >= 0,
{
    let m = len / sz;
    assert(len == m * sz) by (nonlinear_arith)
        requires
            len % sz == 0,
            sz > 0,
            m == len / sz,
    ;
    vstd::arithmetic::mul::lemma_mul_strict_inequality(w, m, sz);
    vstd::arithmetic::div_mod::lemma_mod_multiples_basic(w, sz);
    vstd::arithmetic::mul::lemma_mul_nonnegative(w, sz);
}

proof fn lemma_bank_from_end(count: int, len: int, sz: int)
    requires
        sz > 0,
        1 <= count <= len / sz,
        len % sz == 0,
    ensures
        sz * count <= len,
        (len - sz * count) % sz == 0,
        len - sz * count < len,
{
    let m = len / sz;
    assert(len == m * sz) by (nonlinear_arith)
        requires
            len % sz == 0,
            sz > 0,
            m == len / sz,
    ;
    vstd::arithmetic::mul::lemma_mul_inequality(count, m, sz);
    vstd::arithmetic::mul::lemma_mul_strict_inequality(0, count, sz);
    assert(len - sz * count == (m - count) * sz) by (nonlinear_arith)
        requires
            len == m * sz,
    ;
    vstd::arithmetic::div_mod::lemma_mod_multiples_basic(m - count, sz);
}

proof fn lemma_pow2_divides(small: nat, big: nat)
    requires
        small <= big,
    ensures
        pow2(big) % pow2(small) == 0,
    decreases big - small,
{
    if small == big {
        lemma_pow2_facts(small);
    } else {
        lemma_pow2_divides(small, (big - 1) as nat);
        lemma_pow2_facts(small);
        let a = pow2((big - 1) as nat) as int;
        let b = pow2(small) as int;
        let q = a / b;
        assert(a == q * b) by (nonlinear_arith)
            requires
                a % b == 0,
                b > 0,
                q == a / b,
        ;
        assert(2 * a == (2 * q) * b) by (nonlinear_arith)
            requires
                a == q * b,
        ;
        vstd::arithmetic::div_mod::lemma_mod_multiples_basic(2 * q, b);
    }
}


/// A byte written through the banks reads back at that address, and reads of every
/// address that lands elsewhere in the data are unchanged; a write below the base address
/// changes nothing.
pub proof fn lemma_write_read(pre: BankArray, address: u16, value: u8, post: BankArray, b: u16)
    requires
        pre.wf(),
        pre.readable(address),
        pre.readable(b),
        post.contents() == if address < pre.base() {
            pre.contents()
        } else {
            pre.contents().update(pre.data_index(address), value)
        },
        post.bank_offsets() == pre.bank_offsets(),
        post.base() == pre.base(),
        post.size_log() == pre.size_log(),
    ensures
        address >= pre.base() ==> post.value_at(address) == value,
        address >= pre.base() && (b < pre.base() || pre.data_index(b) != pre.data_index(address))
            ==> post.value_at(b) == pre.value_at(b),
        address < pre.base() ==> post.value_at(b) == pre.value_at(b),
{
    if address >= pre.base() {
        pre.lemma_index_in_range(address);
    }
    if b >= pre.base() {
        pre.lemma_index_in_range(b);
    }
}

} // verus!

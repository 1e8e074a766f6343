use vstd::prelude::*;

verus! {

/// `GL_FLOAT`.
pub const GL_FLOAT: u32 = 0x1406;

/// `GL_UNSIGNED_INT_2_10_10_10_REV`.
pub const GL_UNSIGNED_INT_2_10_10_10_REV: u32 = 0x8368;

/// `GL_INT_2_10_10_10_REV`.
pub const GL_INT_2_10_10_10_REV: u32 = 0x8D9F;

/// Largest value of a 10-bit field.
pub const MAX10: u32 = 1023;

/// Largest value of the 2-bit field.
pub const MAX2: u32 = 3;

/// The word whose fields, from the lowest bits up, are `x`, `y`, `z` (10 bits each)
/// and `w` (2 bits).
pub open spec fn pack_spec(x: int, y: int, z: int, w: int) -> int {
    x + y * 0x400 + z * 0x10_0000 + w * 0x4000_0000
}

pub open spec fn field_x(bits: u32) -> int {
    bits as int % 0x400
}

pub open spec fn field_y(bits: u32) -> int {
    (bits as int / 0x400) % 0x400
}

pub open spec fn field_z(bits: u32) -> int {
    (bits as int / 0x10_0000) % 0x400
}

pub open spec fn field_w(bits: u32) -> int {
    bits as int / 0x4000_0000
}

pub open spec fn clamp_spec(v: int, max: int) -> int {
    if v > max {
        max
    } else {
        v
    }
}

proof fn lemma_pack_bits(x: u32, y: u32, z: u32, w: u32)
    requires
        x <= 1023,
        y <= 1023,
        z <= 1023,
        w <= 3,
    ensures
        (x | (y << 10u32) | (z << 20u32) | (w << 30u32)) as int == pack_spec(x as int, y as int, z as int, w as int),
{
    assert((x | (y << 10u32) | (z << 20u32) | (w << 30u32)) == x + y * 0x400 + z * 0x10_0000 + w * 0x4000_0000)
        by (bit_vector)
        requires
            x <= 1023,
            y <= 1023,
            z <= 1023,
            w <= 3,
    ;
}

/// Reading the fields back from a word built out of in-range fields gives those fields.
pub proof fn lemma_fields_round_trip(x: int, y: int, z: int, w: int)
    requires
        0 <= x <= 1023,
        0 <= y <= 1023,
        0 <= z <= 1023,
        0 <= w <= 3,
    ensures
        0 <= pack_spec(x, y, z, w) <= u32::MAX,
        field_x(pack_spec(x, y, z, w) as u32) == x,
        field_y(pack_spec(x, y, z, w) as u32) == y,
        field_z(pack_spec(x, y, z, w) as u32) == z,
        field_w(pack_spec(x, y, z, w) as u32) == w,
{
    let p = pack_spec(x, y, z, w);
    assert(p == x + 0x400 * (y + 0x400 * (z + 0x400 * w)));
    vstd::arithmetic::div_mod::lemma_fundamental_div_mod_converse(p, 0x400, y + 0x400 * (z + 0x400 * w), x);
    let q1 = y + 0x400 * (z + 0x400 * w);
    vstd::arithmetic::div_mod::lemma_fundamental_div_mod_converse(q1, 0x400, z + 0x400 * w, y);
    let q2 = z + 0x400 * w;
    vstd::arithmetic::div_mod::lemma_fundamental_div_mod_converse(q2, 0x400, w, z);
    vstd::arithmetic::div_mod::lemma_div_denominator(p, 0x400, 0x400);
    vstd::arithmetic::div_mod::lemma_div_denominator(p, 0x10_0000, 0x400);
}

/// Building a word out of the fields read from any word gives that word back.
pub proof fn lemma_bits_round_trip(bits: u32)
    ensures
        0 <= field_x(bits) <= 1023,
        0 <= field_y(bits) <= 1023,
        0 <= field_z(bits) <= 1023,
        0 <= field_w(bits) <= 3,
        pack_spec(field_x(bits), field_y(bits), field_z(bits), field_w(bits)) == bits,
{
    let b = bits as int;
    vstd::arithmetic::div_mod::lemma_fundamental_div_mod(b, 0x400);
    vstd::arithmetic::div_mod::lemma_fundamental_div_mod(b / 0x400, 0x400);
    vstd::arithmetic::div_mod::lemma_fundamental_div_mod(b / 0x10_0000, 0x400);
    vstd::arithmetic::div_mod::lemma_div_denominator(b, 0x400, 0x400);
    vstd::arithmetic::div_mod::lemma_div_denominator(b, 0x10_0000, 0x400);
}

/// A vertex attribute of four normalized unsigned components packed into one 32-bit
/// word, laid out as `GL_UNSIGNED_INT_2_10_10_10_REV`: `x` in bits 0..10, `y` in
/// bits 10..20, `z` in bits 20..30 and `w` in bits 30..32.
#[allow(non_camel_case_types)]
#[derive(Copy, Clone, Debug, PartialEq, Eq, Structural)]
pub struct u2_u10_u10_u10_rev_float {
    pub inner: u32,
}

impl u2_u10_u10_u10_rev_float {
    /// Packs already quantized fields; a field above its range is clamped to the
    /// largest value it can hold.
    pub fn from_fields(x: u32, y: u32, z: u32, w: u32) -> (r: Self)
        ensures
            r.inner as int == pack_spec(
                clamp_spec(x as int, 1023),
                clamp_spec(y as int, 1023),
                clamp_spec(z as int, 1023),
                clamp_spec(w as int, 3),
            ),
            field_x(r.inner) == clamp_spec(x as int, 1023),
            field_y(r.inner) == clamp_spec(y as int, 1023),
            field_z(r.inner) == clamp_spec(z as int, 1023),
            field_w(r.inner) == clamp_spec(w as int, 3),
    {
        let x = if x > MAX10 { MAX10 } else { x };
        let y = if y > MAX10 { MAX10 } else { y };
        let z = if z > MAX10 { MAX10 } else { z };
        let w = if w > MAX2 { MAX2 } else { w };
        proof {
            lemma_pack_bits(x, y, z, w);
            lemma_fields_round_trip(x as int, y as int, z as int, w as int);
        }
        u2_u10_u10_u10_rev_float { inner: x | (y << 10u32) | (z << 20u32) | (w << 30u32) }
    }

    /// Wraps a word that was packed elsewhere.
    pub fn from_raw(data: u32) -> (r: Self)
        ensures
            r.inner == data,
    {
        u2_u10_u10_u10_rev_float { inner: data }
    }

    pub fn raw_value(&self) -> (r: u32)
        ensures
            r == self.inner,
    {
        self.inner
    }

    pub fn x(&self) -> (r: u32)
        ensures
            r == field_x(self.inner),
    {
        let r = self.inner & MAX10;
        proof {
            let b = self.inner;
            assert(b & 1023 == b % 1024) by (bit_vector);
        }
        r
    }

    pub fn y(&self) -> (r: u32)
        ensures
            r == field_y(self.inner),
    {
        let r = (self.inner >> 10u32) & MAX10;
        proof {
            let b = self.inner;
            assert((b >> 10u32) & 1023 == (b / 1024) % 1024) by (bit_vector);
        }
        r
    }

    pub fn z(&self) -> (r: u32)
        ensures
            r == field_z(self.inner),
    {
        let r = (self.inner >> 20u32) & MAX10;
        proof {
            let b = self.inner;
            assert((b >> 20u32) & 1023 == (b / 0x10_0000) % 1024) by (bit_vector);
        }
        r
    }

    pub fn w(&self) -> (r: u32)
        ensures
            r == field_w(self.inner),
    {
        let r = self.inner >> 30u32;
        proof {
            let b = self.inner;
            assert(b >> 30u32 == b / 0x4000_0000) by (bit_vector);
        }
        r
    }

    /// How this attribute is read from a vertex record of `stride` bytes, at byte
    /// `offset` of the record, into shader input `location`.
    pub fn vertex_attrib_pointer(stride: usize, location: usize, offset: usize) -> (r: AttribLayout)
        requires
            stride <= i32::MAX,
            location <= u32::MAX,
        ensures
            r.describes(AttribKind::Packed2101010, stride as int, location as int, offset as int),
    {
        AttribLayout::new(AttribKind::Packed2101010, stride, location, offset)
    }
}

/// The signed value that the two's complement field `u` of `width` bits stands for.
pub open spec fn to_signed(u: int, width: int) -> int
    recommends
        width == 0x400 || width == 4,
{
    if u >= width / 2 {
        u - width
    } else {
        u
    }
}

/// The two's complement field of `width` bits that stands for the signed value `s`.
pub open spec fn from_signed(s: int, width: int) -> int
    recommends
        width == 0x400 || width == 4,
{
    if s < 0 {
        s + width
    } else {
        s
    }
}

pub open spec fn clamp_signed(v: int, lo: int, hi: int) -> int {
    if v < lo {
        lo
    } else if v > hi {
        hi
    } else {
        v
    }
}

fn to_field(s: i32, width: i32) -> (r: u32)
    requires
        width == 0x400 || width == 4,
        -(width / 2) <= s < width / 2,
    ensures
        r == from_signed(s as int, width as int),
{
    if s < 0 {
        (s + width) as u32
    } else {
        s as u32
    }
}

fn from_field(u: u32, width: u32) -> (r: i32)
    requires
        width == 0x400 || width == 4,
        u < width,
    ensures
        r == to_signed(u as int, width as int),
{
    if u >= width / 2 {
        u as i32 - width as i32
    } else {
        u as i32
    }
}

/// Reading signed fields back from a word built out of in-range signed fields gives
/// those fields.
pub proof fn lemma_signed_fields_round_trip(x: int, y: int, z: int, w: int)
    requires
        -512 <= x <= 511,
        -512 <= y <= 511,
        -512 <= z <= 511,
        -2 <= w <= 1,
    ensures
        0 <= pack_spec(from_signed(x, 0x400), from_signed(y, 0x400), from_signed(z, 0x400), from_signed(w, 4))
            <= u32::MAX,
        ({
            let bits = pack_spec(
                from_signed(x, 0x400),
                from_signed(y, 0x400),
                from_signed(z, 0x400),
                from_signed(w, 4),
            ) as u32;
            &&& to_signed(field_x(bits), 0x400) == x
            &&& to_signed(field_y(bits), 0x400) == y
            &&& to_signed(field_z(bits), 0x400) == z
            &&& to_signed(field_w(bits), 4) == w
        }),
{
    lemma_fields_round_trip(from_signed(x, 0x400), from_signed(y, 0x400), from_signed(z, 0x400), from_signed(w, 4));
}

/// Building a word out of the signed fields read from any word gives that word back.
pub proof fn lemma_signed_bits_round_trip(bits: u32)
    ensures
        -512 <= to_signed(field_x(bits), 0x400) <= 511,
        -512 <= to_signed(field_y(bits), 0x400) <= 511,
        -512 <= to_signed(field_z(bits), 0x400) <= 511,
        -2 <= to_signed(field_w(bits), 4) <= 1,
        pack_spec(
            from_signed(to_signed(field_x(bits), 0x400), 0x400),
            from_signed(to_signed(field_y(bits), 0x400), 0x400),
            from_signed(to_signed(field_z(bits), 0x400), 0x400),
            from_signed(to_signed(field_w(bits), 4), 4),
        ) == bits,
{
    lemma_bits_round_trip(bits);
}

/// A vertex attribute of four normalized signed components packed into one 32-bit
/// word, laid out as `GL_INT_2_10_10_10_REV`: two's complement fields `x` in bits
/// 0..10, `y` in bits 10..20, `z` in bits 20..30 and `w` in bits 30..32.
#[allow(non_camel_case_types)]
#[derive(Copy, Clone, Debug, PartialEq, Eq, Structural)]
pub struct i2_i10_i10_i10_rev_float {
    pub inner: u32,
}

impl i2_i10_i10_i10_rev_float {
    /// Packs already quantized signed fields; a field outside its range is clamped to
    /// the nearest value it can hold.
    pub fn from_fields(x: i32, y: i32, z: i32, w: i32) -> (r: Self)
        ensures
            r.inner as int == pack_spec(
                from_signed(clamp_signed(x as int, -512, 511), 0x400),
                from_signed(clamp_signed(y as int, -512, 511), 0x400),
                from_signed(clamp_signed(z as int, -512, 511), 0x400),
                from_signed(clamp_signed(w as int, -2, 1), 4),
            ),
            to_signed(field_x(r.inner), 0x400) == clamp_signed(x as int, -512, 511),
            to_signed(field_y(r.inner), 0x400) == clamp_signed(y as int, -512, 511),
            to_signed(field_z(r.inner), 0x400) == clamp_signed(z as int, -512, 511),
            to_signed(field_w(r.inner), 4) == clamp_signed(w as int, -2, 1),
    {
        let x = if x < -512 { -512 } else if x > 511 { 511 } else { x };
        let y = if y < -512 { -512 } else if y > 511 { 511 } else { y };
        let z = if z < -512 { -512 } else if z > 511 { 511 } else { z };
        let w = if w < -2 { -2 } else if w > 1 { 1 } else { w };
        let ux = to_field(x, 0x400);
        let uy = to_field(y, 0x400);
        let uz = to_field(z, 0x400);
        let uw = to_field(w, 4);
        proof {
            lemma_pack_bits(ux, uy, uz, uw);
            lemma_signed_fields_round_trip(x as int, y as int, z as int, w as int);
        }
        i2_i10_i10_i10_rev_float { inner: ux | (uy << 10u32) | (uz << 20u32) | (uw << 30u32) }
    }

    /// Wraps a word that was packed elsewhere.
    pub fn from_raw(data: u32) -> (r: Self)
        ensures
            r.inner == data,
    {
        i2_i10_i10_i10_rev_float { inner: data }
    }

    pub fn raw_value(&self) -> (r: u32)
        ensures
            r == self.inner,
    {
        self.inner
    }

    pub fn x(&self) -> (r: i32)
        ensures
            r == to_signed(field_x(self.inner), 0x400),
    {
        let u = u2_u10_u10_u10_rev_float::from_raw(self.inner).x();
        from_field(u, 0x400)
    }

    pub fn y(&self) -> (r: i32)
        ensures
            r == to_signed(field_y(self.inner), 0x400),
    {
        let u = u2_u10_u10_u10_rev_float::from_raw(self.inner).y();
        from_field(u, 0x400)
    }

    pub fn z(&self) -> (r: i32)
        ensures
            r == to_signed(field_z(self.inner), 0x400),
    {
        let u = u2_u10_u10_u10_rev_float::from_raw(self.inner).z();
        from_field(u, 0x400)
    }

    pub fn w(&self) -> (r: i32)
        ensures
            r == to_signed(field_w(self.inner), 4),
    {
        let u = u2_u10_u10_u10_rev_float::from_raw(self.inner).w();
        proof {
            lemma_bits_round_trip(self.inner);
        }
        from_field(u, 4)
    }

    /// How this attribute is read from a vertex record of `stride` bytes, at byte
    /// `offset` of the record, into shader input `location`.
    pub fn vertex_attrib_pointer(stride: usize, location: usize, offset: usize) -> (r: AttribLayout)
        requires
            stride <= i32::MAX,
            location <= u32::MAX,
        ensures
            r.describes(AttribKind::SignedPacked2101010, stride as int, location as int, offset as int),
    {
        AttribLayout::new(AttribKind::SignedPacked2101010, stride, location, offset)
    }
}

/// The attribute representations a vertex record can hold.
#[derive(Copy, Clone, Debug, PartialEq, Eq, Structural)]
pub enum AttribKind {
    /// Four normalized unsigned components in one packed 32-bit word.
    Packed2101010,
    /// Four normalized signed components in one packed 32-bit word.
    SignedPacked2101010,
    /// Three 32-bit floats, read as they are.
    Float3,
}

impl AttribKind {
    pub open spec fn components_spec(self) -> i32 {
        match self {
            AttribKind::Packed2101010 => 4,
            AttribKind::SignedPacked2101010 => 4,
            AttribKind::Float3 => 3,
        }
    }

    pub open spec fn component_type_spec(self) -> u32 {
        match self {
            AttribKind::Packed2101010 => GL_UNSIGNED_INT_2_10_10_10_REV,
            AttribKind::SignedPacked2101010 => GL_INT_2_10_10_10_REV,
            AttribKind::Float3 => GL_FLOAT,
        }
    }

    pub open spec fn normalized_spec(self) -> bool {
        match self {
            AttribKind::Packed2101010 => true,
            AttribKind::SignedPacked2101010 => true,
            AttribKind::Float3 => false,
        }
    }

    /// Bytes that one value of this kind takes in a vertex record.
    pub open spec fn size_spec(self) -> nat {
        match self {
            AttribKind::Packed2101010 => 4,
            AttribKind::SignedPacked2101010 => 4,
            AttribKind::Float3 => 12,
        }
    }

    pub fn components(&self) -> (r: i32)
        ensures
            r == self.components_spec(),
    {
        match self {
            AttribKind::Packed2101010 => 4,
            AttribKind::SignedPacked2101010 => 4,
            AttribKind::Float3 => 3,
        }
    }

    pub fn component_type(&self) -> (r: u32)
        ensures
            r == self.component_type_spec(),
    {
        match self {
            AttribKind::Packed2101010 => GL_UNSIGNED_INT_2_10_10_10_REV,
            AttribKind::SignedPacked2101010 => GL_INT_2_10_10_10_REV,
            AttribKind::Float3 => GL_FLOAT,
        }
    }

    pub fn normalized(&self) -> (r: bool)
        ensures
            r == self.normalized_spec(),
    {
        match self {
            AttribKind::Packed2101010 => true,
            AttribKind::SignedPacked2101010 => true,
            AttribKind::Float3 => false,
        }
    }

    pub fn byte_size(&self) -> (r: usize)
        ensures
            r == self.size_spec(),
    {
        match self {
            AttribKind::Packed2101010 => 4,
            AttribKind::SignedPacked2101010 => 4,
            AttribKind::Float3 => 12,
        }
    }
}

/// The arguments of one `glVertexAttribPointer` call, with the index that is enabled
/// before it.
#[derive(Copy, Clone, Debug, PartialEq, Eq, Structural)]
pub struct AttribLayout {
    pub location: u32,
    pub components: i32,
    pub component_type: u32,
    pub normalized: bool,
    pub stride: i32,
    pub offset: usize,
}

impl AttribLayout {
    pub open spec fn describes(self, kind: AttribKind, stride: int, location: int, offset: int) -> bool {
        &&& self.location == location
        &&& self.components == kind.components_spec()
        &&& self.component_type == kind.component_type_spec()
        &&& self.normalized == kind.normalized_spec()
        &&& self.stride == stride
        &&& self.offset == offset
    }

    pub fn new(kind: AttribKind, stride: usize, location: usize, offset: usize) -> (r: AttribLayout)
        requires
            stride <= i32::MAX,
            location <= u32::MAX,
        ensures
            r.describes(kind, stride as int, location as int, offset as int),
    {
        AttribLayout {
            location: location as u32,
            components: kind.components(),
            component_type: kind.component_type(),
            normalized: kind.normalized(),
            stride: stride as i32,
            offset,
        }
    }
}

} // verus!

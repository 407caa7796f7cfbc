use vstd::prelude::*;

verus! {

/// Sign every input and every output.
pub const SIGHASH_ALL: u8 = 0x01;

/// The fork-id digest scheme, which commits to the amount being spent.
pub const SIGHASH_FORKID: u8 = 0x40;

/// The sequence number of an input that is final.
pub const SEQUENCE_FINAL: u32 = 0xffff_ffff;

/// Script opcodes for pushing data.
pub const OP_0: u8 = 0;
pub const OP_PUSHDATA1: u8 = 76;
pub const OP_PUSHDATA2: u8 = 77;
pub const OP_PUSHDATA4: u8 = 78;

/// An input: the prior output it spends (transaction id in internal byte order,
/// and output index), its unlocking script and its sequence number.
#[derive(Clone, Debug)]
pub struct TxInput {
    pub prev_hash: Vec<u8>,
    pub prev_index: u32,
    pub unlock_script: Vec<u8>,
    pub sequence: u32,
}

/// An output: an amount in the smallest unit and a locking script.
#[derive(Clone, Debug)]
pub struct TxOutput {
    pub satoshis: i64,
    pub lock_script: Vec<u8>,
}

/// A transaction: version, inputs, outputs and lock time.
#[derive(Clone, Debug)]
pub struct Transaction {
    pub version: u32,
    pub inputs: Vec<TxInput>,
    pub outputs: Vec<TxOutput>,
    pub lock_time: u32,
}

pub struct InputView {
    pub prev_hash: Seq<u8>,
    pub prev_index: u32,
    pub unlock_script: Seq<u8>,
    pub sequence: u32,
}

pub struct OutputView {
    pub satoshis: i64,
    pub lock_script: Seq<u8>,
}

pub struct TxView {
    pub version: u32,
    pub inputs: Seq<InputView>,
    pub outputs: Seq<OutputView>,
    pub lock_time: u32,
}

impl View for TxInput {
    type V = InputView;

    open spec fn view(&self) -> InputView {
        InputView {
            prev_hash: self.prev_hash@,
            prev_index: self.prev_index,
            unlock_script: self.unlock_script@,
            sequence: self.sequence,
        }
    }
}

impl View for TxOutput {
    type V = OutputView;

    open spec fn view(&self) -> OutputView {
        OutputView { satoshis: self.satoshis, lock_script: self.lock_script@ }
    }
}

impl View for Transaction {
    type V = TxView;

    open spec fn view(&self) -> TxView {
        TxView {
            version: self.version,
            inputs: self.inputs@.map_values(|i: TxInput| i@),
            outputs: self.outputs@.map_values(|o: TxOutput| o@),
            lock_time: self.lock_time,
        }
    }
}

/// The script fragment that pushes `d` onto the stack: a length prefix in the
/// shortest form the script language has for it, then the bytes.
pub open spec fn push_data(d: Seq<u8>) -> Seq<u8> {
    let n = d.len();
    if n == 0 {
        seq![OP_0]
    } else if n <= 75 {
        seq![n as u8] + d
    } else if n <= 255 {
        seq![OP_PUSHDATA1, n as u8] + d
    } else if n <= 65535 {
        seq![OP_PUSHDATA2, (n % 256) as u8, (n / 256) as u8] + d
    } else {
        seq![
            OP_PUSHDATA4,
            (n % 256) as u8,
            ((n / 256) % 256) as u8,
            ((n / 65536) % 256) as u8,
            ((n / 16777216) % 256) as u8,
        ] + d
    }
}

/// The unlocking script of a pay-to-public-key-hash spend: the signature (with
/// its flag byte), then the public key.
pub open spec fn unlock_script_of(signature: Seq<u8>, public_key: Seq<u8>) -> Seq<u8> {
    push_data(signature) + push_data(public_key)
}

/// Appends the bytes of `src` to `dst`.
fn extend_bytes(dst: &mut Vec<u8>, src: &Vec<u8>)
    ensures
        final(dst)@ == old(dst)@ + src@,
{
    let mut i: usize = 0;
    while i < src.len()
        invariant
            i <= src@.len(),
            dst@ == old(dst)@ + src@.subrange(0, i as int),
        decreases src@.len() - i,
    {
        dst.push(src[i]);
        assert(src@.subrange(0, i + 1) == src@.subrange(0, i as int).push(src@[i as int]));
        i = i + 1;
    }
    assert(src@.subrange(0, src@.len() as int) == src@);
}

/// A copy of the bytes of `src`.
pub fn copy_bytes(src: &Vec<u8>) -> (r: Vec<u8>)
    ensures
        r@ == src@,
{
    let mut r: Vec<u8> = Vec::new();
    extend_bytes(&mut r, src);
    r
}

/// Appends to `script` the instructions that push `data`.
pub fn append_data(script: &mut Vec<u8>, data: &Vec<u8>)
    ensures
        final(script)@ == old(script)@ + push_data(data@),
{
    let n = data.len();
    let ghost before = script@;
    if n == 0 {
        script.push(OP_0);
        assert(script@ == before + seq![OP_0]);
        return;
    } else if n <= 75 {
        script.push(n as u8);
    } else if n <= 255 {
        script.push(OP_PUSHDATA1);
        script.push(n as u8);
    } else if n <= 65535 {
        script.push(OP_PUSHDATA2);
        script.push((n % 256) as u8);
        script.push((n / 256) as u8);
    } else {
        script.push(OP_PUSHDATA4);
        script.push((n % 256) as u8);
        script.push(((n / 256) % 256) as u8);
        script.push(((n / 65536) % 256) as u8);
        script.push(((n / 16777216) % 256) as u8);
    }
    let ghost prefix = script@;
    extend_bytes(script, data);
    assert(script@ == before + push_data(data@)) by {
        assert(prefix + data@ == before + (prefix.subrange(before.len() as int, prefix.len() as int) + data@));
    }
}

/// The unlocking script that pushes `signature`, then `public_key`.
pub fn create_unlock_script(signature: &Vec<u8>, public_key: &Vec<u8>) -> (r: Vec<u8>)
    ensures
        r@ == unlock_script_of(signature@, public_key@),
{
    let mut r: Vec<u8> = Vec::new();
    append_data(&mut r, signature);
    append_data(&mut r, public_key);
    r
}

} // verus!

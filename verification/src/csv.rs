//! CSV output: quoting of fields, records of strings, the header lines of
//! a schema and the rows of a block of data.

use vstd::prelude::*;
use vstd::utf8::encode_utf8;

use crate::plans::DataType;
use crate::text::{lemma_join_push, seq_join};

verus! {

/// The options of a file format that CSV output reads.
#[derive(Clone, Debug)]
pub struct FileFormatOptions {
    pub field_delimiter: String,
    pub record_delimiter: String,
    pub quote: String,
}

/// A named, typed field of a schema.
#[derive(Clone, Debug)]
pub struct DataField {
    pub name: String,
    pub data_type: DataType,
}

impl DataField {
    pub fn name(&self) -> (res: &String)
        ensures
            *res == self.name,
    {
        &self.name
    }

    pub fn data_type(&self) -> (res: &DataType)
        ensures
            *res == self.data_type,
    {
        &self.data_type
    }
}

/// The fields of the rows of a result.
#[derive(Clone, Debug)]
pub struct DataSchema {
    pub fields: Vec<DataField>,
}

impl DataSchema {
    pub fn fields(&self) -> (res: &Vec<DataField>)
        ensures
            *res == self.fields,
    {
        &self.fields
    }
}

pub type DataSchemaRef = std::sync::Arc<DataSchema>;

/// One value of a block, as the field encoder of CSV writes it: a null,
/// boolean or number is written as its bytes are, a string-like value is
/// quoted.
#[derive(Clone, Debug)]
pub enum Cell {
    Verbatim(Vec<u8>),
    Text(Vec<u8>),
}

/// A block of rows, held column by column.
#[derive(Clone, Debug)]
pub struct DataBlock {
    pub columns: Vec<Vec<Cell>>,
}

/// A block that can be written row by row: it has at least one column, the
/// first column gives the number of rows, and no column is shorter.
pub open spec fn block_wf(block: DataBlock) -> bool {
    &&& block.columns@.len() > 0
    &&& forall|c: int|
        0 <= c < block.columns@.len() ==> (#[trigger] block.columns@[c])@.len()
            >= block.columns@[0]@.len()
}

/// The UTF-8 bytes of a string.
pub open spec fn string_bytes(s: String) -> Seq<u8> {
    encode_utf8(s@)
}

/// The body of a quoted field: every quote character doubled.
pub open spec fn csv_escape(bytes: Seq<u8>, quote: u8) -> Seq<u8>
    decreases bytes.len(),
{
    if bytes.len() == 0 {
        Seq::empty()
    } else {
        (if bytes[0] == quote {
            seq![quote, quote]
        } else {
            seq![bytes[0]]
        }) + csv_escape(bytes.drop_first(), quote)
    }
}

/// A quoted field: the quote character, the escaped bytes, the quote
/// character.
pub open spec fn csv_quote(bytes: Seq<u8>, quote: u8) -> Seq<u8> {
    seq![quote] + csv_escape(bytes, quote) + seq![quote]
}

/// The bytes that the field encoder writes for one value.
pub open spec fn cell_bytes(cell: Cell, quote: u8) -> Seq<u8> {
    match cell {
        Cell::Verbatim(b) => b@,
        Cell::Text(b) => csv_quote(b@, quote),
    }
}

/// A record: the fields separated by the field delimiter, then the record
/// delimiter.
pub open spec fn csv_record(fields: Seq<Seq<u8>>, field_delimiter: u8, record_delimiter: Seq<
    u8,
>) -> Seq<u8> {
    seq_join(fields, seq![field_delimiter]) + record_delimiter
}

/// Strings quoted as CSV fields.
pub open spec fn quoted_strings(values: Seq<String>, quote: u8) -> Seq<Seq<u8>> {
    values.map_values(|s: String| csv_quote(string_bytes(s), quote))
}

/// The encoded values of one row of a block.
pub open spec fn row_fields(block: DataBlock, row: int, quote: u8) -> Seq<Seq<u8>> {
    Seq::new(block.columns@.len(), |c: int| cell_bytes(block.columns@[c]@[row], quote))
}

/// The records of the first `rows` rows of a block.
pub open spec fn block_bytes(
    block: DataBlock,
    rows: int,
    field_delimiter: u8,
    record_delimiter: Seq<u8>,
    quote: u8,
) -> Seq<u8>
    decreases rows,
{
    if rows <= 0 {
        Seq::empty()
    } else {
        block_bytes(block, rows - 1, field_delimiter, record_delimiter, quote) + csv_record(
            row_fields(block, rows - 1, quote),
            field_delimiter,
            record_delimiter,
        )
    }
}

/// Escaping two byte strings one after the other.
pub proof fn lemma_escape_concat(a: Seq<u8>, b: Seq<u8>, quote: u8)
    ensures
        csv_escape(a + b, quote) == csv_escape(a, quote) + csv_escape(b, quote),
    decreases a.len(),
{
    if a.len() == 0 {
        assert(a + b =~= b);
    } else {
        lemma_escape_concat(a.drop_first(), b, quote);
        assert((a + b).drop_first() =~= a.drop_first() + b);
    }
}

/// Writes `bytes` as a quoted CSV field.
pub fn write_csv_string(bytes: &[u8], buf: &mut Vec<u8>, quote: u8)
    ensures
        final(buf)@ == old(buf)@ + csv_quote(bytes@, quote),
{
    buf.push(quote);
    let mut i: usize = 0;
    while i < bytes.len()
        invariant
            i <= bytes.len(),
            buf@ == old(buf)@ + seq![quote] + csv_escape(bytes@.take(i as int), quote),
        decreases bytes.len() - i,
    {
        let b: u8 = bytes[i];
        proof {
            let one = seq![b];
            lemma_escape_concat(bytes@.take(i as int), one, quote);
            assert(bytes@.take(i as int + 1) =~= bytes@.take(i as int) + one);
            assert(one.drop_first() =~= Seq::<u8>::empty());
            assert(csv_escape(Seq::<u8>::empty(), quote) =~= Seq::<u8>::empty());
            assert(csv_escape(one, quote) =~= if b == quote {
                seq![quote, quote]
            } else {
                seq![b]
            });
        }
        let ghost before = buf@;
        if b == quote {
            buf.push(quote);
            buf.push(quote);
            assert(buf@ =~= before + seq![quote, quote]);
        } else {
            buf.push(b);
            assert(buf@ =~= before + seq![b]);
        }
        i = i + 1;
    }
    buf.push(quote);
    assert(bytes@.take(bytes.len() as int) =~= bytes@);
    assert(buf@ =~= old(buf)@ + csv_quote(bytes@, quote));
}

/// Appends bytes to a buffer.
fn append_bytes(buf: &mut Vec<u8>, bytes: &[u8])
    ensures
        final(buf)@ == old(buf)@ + bytes@,
{
    let mut i: usize = 0;
    while i < bytes.len()
        invariant
            i <= bytes.len(),
            buf@ == old(buf)@ + bytes@.take(i as int),
        decreases bytes.len() - i,
    {
        buf.push(bytes[i]);
        i = i + 1;
        assert(buf@ =~= old(buf)@ + bytes@.take(i as int));
    }
    assert(bytes@.take(bytes.len() as int) =~= bytes@);
}

/// The encoder that writes the values of a block as CSV fields.
#[derive(Clone, Copy, Debug)]
pub struct FieldEncoderCSV {
    pub quote_char: u8,
}

impl FieldEncoderCSV {
    /// An encoder that quotes with the first byte of the quote option.
    pub fn create(options: &FileFormatOptions) -> (res: FieldEncoderCSV)
        requires
            string_bytes(options.quote).len() > 0,
        ensures
            res.quote_char == string_bytes(options.quote)[0],
    {
        FieldEncoderCSV { quote_char: options.quote.as_str().as_bytes()[0] }
    }

    /// Writes one value.
    pub fn write_field(&self, cell: &Cell, buf: &mut Vec<u8>)
        ensures
            final(buf)@ == old(buf)@ + cell_bytes(*cell, self.quote_char),
    {
        match cell {
            Cell::Verbatim(b) => append_bytes(buf, b.as_slice()),
            Cell::Text(b) => write_csv_string(b.as_slice(), buf, self.quote_char),
        }
    }
}

} // verus!

verus! {

/// CSV output; with `WITH_NAMES` a header line of the field names comes
/// first, and with `WITH_TYPES` as well a line of their type names.
pub struct CSVOutputFormatBase<const WITH_NAMES: bool, const WITH_TYPES: bool> {
    schema: DataSchemaRef,
    field_encoder: FieldEncoderCSV,
    field_delimiter: u8,
    record_delimiter: Vec<u8>,
    quote: u8,
}

pub type CSVOutputFormat = CSVOutputFormatBase<false, false>;

pub type CSVWithNamesOutputFormat = CSVOutputFormatBase<true, false>;

pub type CSVWithNamesAndTypesOutputFormat = CSVOutputFormatBase<true, true>;

/// The field names of a schema.
pub open spec fn schema_names(schema: DataSchema) -> Seq<String> {
    schema.fields@.map_values(|f: DataField| f.name)
}

/// The type names of the fields of a schema.
pub open spec fn schema_types(schema: DataSchema) -> Seq<String> {
    schema.fields@.map_values(|f: DataField| f.data_type.name)
}

impl<const WITH_NAMES: bool, const WITH_TYPES: bool> CSVOutputFormatBase<WITH_NAMES, WITH_TYPES> {
    /// The schema whose rows this output writes.
    pub closed spec fn schema_spec(&self) -> DataSchema {
        *self.schema
    }

    /// The byte between the fields of a record.
    pub closed spec fn field_delimiter_spec(&self) -> u8 {
        self.field_delimiter
    }

    /// The bytes that end a record.
    pub closed spec fn record_delimiter_spec(&self) -> Seq<u8> {
        self.record_delimiter@
    }

    /// The byte that quotes strings.
    pub closed spec fn quote_spec(&self) -> u8 {
        self.quote
    }

    /// The byte with which the field encoder quotes string-like values.
    pub closed spec fn encoder_quote_spec(&self) -> u8 {
        self.field_encoder.quote_char
    }

    /// CSV output of rows of `schema`: fields are separated by the first
    /// byte of the field delimiter option, records end with the bytes of
    /// the record delimiter option, and strings are quoted with the first
    /// byte of the quote option.
    pub fn create(schema: DataSchemaRef, options: &FileFormatOptions) -> (res: Self)
        requires
            string_bytes(options.field_delimiter).len() > 0,
            string_bytes(options.quote).len() > 0,
        ensures
            res.schema_spec() == *schema,
            res.field_delimiter_spec() == string_bytes(options.field_delimiter)[0],
            res.record_delimiter_spec() == string_bytes(options.record_delimiter),
            res.quote_spec() == string_bytes(options.quote)[0],
            res.encoder_quote_spec() == string_bytes(options.quote)[0],
    {
        let field_encoder = FieldEncoderCSV::create(options);
        let mut record_delimiter: Vec<u8> = Vec::new();
        append_bytes(&mut record_delimiter, options.record_delimiter.as_str().as_bytes());
        Self {
            schema,
            field_encoder,
            field_delimiter: options.field_delimiter.as_str().as_bytes()[0],
            record_delimiter,
            quote: options.quote.as_str().as_bytes()[0],
        }
    }

    /// One record of quoted strings.
    fn serialize_strings(&self, values: Vec<String>) -> (res: Vec<u8>)
        ensures
            res@ == csv_record(
                quoted_strings(values@, self.quote),
                self.field_delimiter,
                self.record_delimiter@,
            ),
    {
        let mut buf: Vec<u8> = Vec::new();
        let fd: u8 = self.field_delimiter;
        let ghost fields = quoted_strings(values@, self.quote);
        let mut col_index: usize = 0;
        while col_index < values.len()
            invariant
                col_index <= values.len(),
                fd == self.field_delimiter,
                fields == quoted_strings(values@, self.quote),
                buf@ == seq_join(fields.take(col_index as int), seq![fd]),
            decreases values.len() - col_index,
        {
            proof {
                assert(fields.take(col_index as int + 1) =~= fields.take(col_index as int).push(
                    fields[col_index as int],
                ));
                lemma_join_push(fields.take(col_index as int), fields[col_index as int], seq![fd]);
            }
            if col_index != 0 {
                buf.push(fd);
            }
            write_csv_string(values[col_index].as_str().as_bytes(), &mut buf, self.quote);
            col_index = col_index + 1;
        }
        assert(fields.take(values.len() as int) =~= fields);
        append_bytes(&mut buf, self.record_delimiter.as_slice());
        buf
    }

    /// The records of all rows of a block, one record per row, each value
    /// written by the field encoder.
    pub fn serialize_block(&mut self, block: &DataBlock) -> (res: Vec<u8>)
        requires
            block_wf(*block),
        ensures
            *final(self) == *old(self),
            res@ == block_bytes(
                *block,
                block.columns@[0]@.len() as int,
                old(self).field_delimiter_spec(),
                old(self).record_delimiter_spec(),
                old(self).encoder_quote_spec(),
            ),
    {
        let rows_size: usize = block.columns[0].len();
        let mut buf: Vec<u8> = Vec::new();
        let fd: u8 = self.field_delimiter;
        let q: u8 = self.field_encoder.quote_char;
        let ncols: usize = block.columns.len();
        let mut row_index: usize = 0;
        while row_index < rows_size
            invariant
                row_index <= rows_size,
                rows_size == block.columns@[0]@.len(),
                ncols == block.columns@.len(),
                block_wf(*block),
                fd == self.field_delimiter,
                q == self.field_encoder.quote_char,
                buf@ == block_bytes(*block, row_index as int, fd, self.record_delimiter@, q),
            decreases rows_size - row_index,
        {
            let ghost start = buf@;
            let ghost fields = row_fields(*block, row_index as int, q);
            let mut col_index: usize = 0;
            while col_index < ncols
                invariant
                    col_index <= ncols,
                    row_index < rows_size,
                    rows_size == block.columns@[0]@.len(),
                    ncols == block.columns@.len(),
                    block_wf(*block),
                    fd == self.field_delimiter,
                    q == self.field_encoder.quote_char,
                    fields == row_fields(*block, row_index as int, q),
                    buf@ == start + seq_join(fields.take(col_index as int), seq![fd]),
                decreases ncols - col_index,
            {
                proof {
                    assert(fields.take(col_index as int + 1) =~= fields.take(col_index as int).push(
                        fields[col_index as int],
                    ));
                    lemma_join_push(fields.take(col_index as int), fields[col_index as int], seq![fd]);
                    assert(block.columns@[col_index as int]@.len() >= rows_size);
                }
                if col_index != 0 {
                    buf.push(fd);
                }
                self.field_encoder.write_field(&block.columns[col_index][row_index], &mut buf);
                col_index = col_index + 1;
                assert(buf@ =~= start + seq_join(fields.take(col_index as int), seq![fd]));
            }
            assert(fields.take(ncols as int) =~= fields);
            append_bytes(&mut buf, self.record_delimiter.as_slice());
            row_index = row_index + 1;
            assert(buf@ =~= block_bytes(*block, row_index as int, fd, self.record_delimiter@, q));
        }
        buf
    }

    /// The header lines: with `WITH_NAMES` a record of the field names,
    /// then with `WITH_TYPES` as well a record of their type names;
    /// nothing otherwise.
    pub fn serialize_prefix(&self) -> (res: Vec<u8>)
        ensures
            res@ == if WITH_NAMES {
                csv_record(
                    quoted_strings(schema_names(self.schema_spec()), self.quote_spec()),
                    self.field_delimiter_spec(),
                    self.record_delimiter_spec(),
                ) + if WITH_TYPES {
                    csv_record(
                        quoted_strings(schema_types(self.schema_spec()), self.quote_spec()),
                        self.field_delimiter_spec(),
                        self.record_delimiter_spec(),
                    )
                } else {
                    Seq::empty()
                }
            } else {
                Seq::empty()
            },
    {
        let mut buf: Vec<u8> = Vec::new();
        if WITH_NAMES {
            let fields = self.schema.fields();
            let mut names: Vec<String> = Vec::new();
            let mut i: usize = 0;
            while i < fields.len()
                invariant
                    i <= fields.len(),
                    *fields == self.schema.fields,
                    names@ == schema_names(*self.schema).take(i as int),
                decreases fields.len() - i,
            {
                names.push(fields[i].name().clone());
                i = i + 1;
                assert(names@ =~= schema_names(*self.schema).take(i as int));
            }
            assert(schema_names(*self.schema).take(fields.len() as int) =~= schema_names(*self.schema));
            let line = self.serialize_strings(names);
            append_bytes(&mut buf, line.as_slice());
            if WITH_TYPES {
                let mut types: Vec<String> = Vec::new();
                let mut j: usize = 0;
                while j < fields.len()
                    invariant
                        j <= fields.len(),
                        *fields == self.schema.fields,
                        types@ == schema_types(*self.schema).take(j as int),
                    decreases fields.len() - j,
                {
                    types.push(fields[j].data_type().name.clone());
                    j = j + 1;
                    assert(types@ =~= schema_types(*self.schema).take(j as int));
                }
                assert(schema_types(*self.schema).take(fields.len() as int) =~= schema_types(
                    *self.schema,
                ));
                let line2 = self.serialize_strings(types);
                append_bytes(&mut buf, line2.as_slice());
            }
        }
        assert(buf@ =~= if WITH_NAMES {
            csv_record(
                quoted_strings(schema_names(self.schema_spec()), self.quote_spec()),
                self.field_delimiter_spec(),
                self.record_delimiter_spec(),
            ) + if WITH_TYPES {
                csv_record(
                    quoted_strings(schema_types(self.schema_spec()), self.quote_spec()),
                    self.field_delimiter_spec(),
                    self.record_delimiter_spec(),
                )
            } else {
                Seq::empty()
            }
        } else {
            Seq::empty()
        });
        buf
    }

    /// CSV output ends with nothing.
    pub fn finalize(&mut self) -> (res: Vec<u8>)
        ensures
            *final(self) == *old(self),
            res@.len() == 0,
    {
        Vec::new()
    }
}

} // verus!

verus! {

/// Reads the rest of a quoted field after its opening quote: a doubled
/// quote stands for one quote, a single quote closes the field.  Gives the
/// field's bytes and how many bytes were read.
pub open spec fn read_quoted_body(s: Seq<u8>, quote: u8) -> Option<(Seq<u8>, int)>
    decreases s.len(),
{
    if s.len() == 0 {
        None
    } else if s[0] == quote {
        if s.len() >= 2 && s[1] == quote {
            match read_quoted_body(s.skip(2), quote) {
                Some((c, n)) => Some((seq![quote] + c, n + 2)),
                None => None,
            }
        } else {
            Some((Seq::empty(), 1))
        }
    } else {
        match read_quoted_body(s.skip(1), quote) {
            Some((c, n)) => Some((seq![s[0]] + c, n + 1)),
            None => None,
        }
    }
}

/// Reads a quoted field at the start of `s`.
pub open spec fn read_quoted(s: Seq<u8>, quote: u8) -> Option<(Seq<u8>, int)> {
    if s.len() > 0 && s[0] == quote {
        match read_quoted_body(s.skip(1), quote) {
            Some((c, n)) => Some((c, n + 1)),
            None => None,
        }
    } else {
        None
    }
}

/// How many bytes an unquoted field at the start of `s` takes: all bytes
/// up to the next field delimiter, the next byte that starts the record
/// delimiter, or the end.
pub open spec fn plain_len(s: Seq<u8>, field_delimiter: u8, record_delimiter: Seq<u8>) -> nat
    decreases s.len(),
{
    if s.len() == 0 || s[0] == field_delimiter || (record_delimiter.len() > 0 && s[0]
        == record_delimiter[0]) {
        0
    } else {
        1 + plain_len(s.skip(1), field_delimiter, record_delimiter)
    }
}

/// Reads a field at the start of `s`: a quoted one where `s` starts with
/// the quote character, an unquoted one otherwise.
pub open spec fn read_field(
    s: Seq<u8>,
    field_delimiter: u8,
    record_delimiter: Seq<u8>,
    quote: u8,
) -> Option<(Seq<u8>, int)> {
    if s.len() > 0 && s[0] == quote {
        read_quoted(s, quote)
    } else {
        let n = plain_len(s, field_delimiter, record_delimiter);
        Some((s.take(n as int), n as int))
    }
}

/// Reads fields separated by the field delimiter at the start of `s`.
pub open spec fn read_fields(
    s: Seq<u8>,
    field_delimiter: u8,
    record_delimiter: Seq<u8>,
    quote: u8,
) -> Option<(Seq<Seq<u8>>, int)>
    decreases s.len(),
{
    match read_field(s, field_delimiter, record_delimiter, quote) {
        Some((f, n)) => if 0 <= n < s.len() && s[n] == field_delimiter {
            match read_fields(s.skip(n + 1), field_delimiter, record_delimiter, quote) {
                Some((fs, m)) => Some((seq![f] + fs, n + 1 + m)),
                None => None,
            }
        } else {
            Some((seq![f], n))
        },
        None => None,
    }
}

/// Reads a record: its fields, then the record delimiter and nothing
/// after it.
pub open spec fn read_record(
    s: Seq<u8>,
    field_delimiter: u8,
    record_delimiter: Seq<u8>,
    quote: u8,
) -> Option<Seq<Seq<u8>>> {
    if s == record_delimiter {
        Some(Seq::empty())
    } else {
        match read_fields(s, field_delimiter, record_delimiter, quote) {
            Some((fields, n)) => if 0 <= n <= s.len() && s.skip(n) == record_delimiter {
                Some(fields)
            } else {
                None
            },
            None => None,
        }
    }
}

proof fn lemma_read_quoted_body(b: Seq<u8>, quote: u8, tail: Seq<u8>)
    requires
        tail.len() == 0 || tail[0] != quote,
    ensures
        read_quoted_body(csv_escape(b, quote) + seq![quote] + tail, quote) == Some(
            (b, csv_escape(b, quote).len() as int + 1),
        ),
    decreases b.len(),
{
    let s = csv_escape(b, quote) + seq![quote] + tail;
    if b.len() == 0 {
        assert(csv_escape(b, quote) =~= Seq::<u8>::empty());
        assert(s =~= seq![quote] + tail);
        if s.len() >= 2 {
            assert(s[1] == tail[0]);
        }
    } else {
        let rest = b.drop_first();
        lemma_read_quoted_body(rest, quote, tail);
        let r = csv_escape(rest, quote) + seq![quote] + tail;
        if b[0] == quote {
            assert(s =~= seq![quote, quote] + r);
            assert(s.skip(2) =~= r);
            assert(seq![quote] + rest =~= b);
        } else {
            assert(s =~= seq![b[0]] + r);
            assert(s.skip(1) =~= r);
            assert(seq![b[0]] + rest =~= b);
        }
    }
}

/// A quoted field reads back as its bytes, when what follows it does not
/// start with the quote character.
pub proof fn lemma_read_quoted(b: Seq<u8>, quote: u8, tail: Seq<u8>)
    requires
        tail.len() == 0 || tail[0] != quote,
    ensures
        read_quoted(csv_quote(b, quote) + tail, quote) == Some((b, csv_quote(b, quote).len() as int)),
{
    let s = csv_quote(b, quote) + tail;
    lemma_read_quoted_body(b, quote, tail);
    assert(s.skip(1) =~= csv_escape(b, quote) + seq![quote] + tail);
}

/// Joining with a list that has a first element.
proof fn lemma_join_front<A>(x: Seq<A>, xs: Seq<Seq<A>>, sep: Seq<A>)
    requires
        xs.len() > 0,
    ensures
        seq_join(seq![x] + xs, sep) == x + sep + seq_join(xs, sep),
    decreases xs.len(),
{
    let all = seq![x] + xs;
    assert(all.len() >= 2);
    assert(all.last() == xs.last());
    if xs.len() == 1 {
        assert(all.drop_last() =~= seq![x]);
        assert(seq_join(seq![x], sep) == x);
        assert(seq_join(xs, sep) == xs[0]);
        assert(seq_join(all, sep) == seq_join(all.drop_last(), sep) + sep + all.last());
    } else {
        lemma_join_front(x, xs.drop_last(), sep);
        assert(all.drop_last() =~= seq![x] + xs.drop_last());
        assert(seq_join(all, sep) == seq_join(all.drop_last(), sep) + sep + all.last());
        assert(seq_join(xs, sep) == seq_join(xs.drop_last(), sep) + sep + xs.last());
        assert(x + sep + seq_join(xs.drop_last(), sep) + sep + xs.last() =~= x + sep + (seq_join(
            xs.drop_last(),
            sep,
        ) + sep + xs.last()));
    }
}

/// The quoted fields of a list of byte strings.
pub open spec fn quote_all(values: Seq<Seq<u8>>, quote: u8) -> Seq<Seq<u8>> {
    values.map_values(|b: Seq<u8>| csv_quote(b, quote))
}

proof fn lemma_read_fields(
    values: Seq<Seq<u8>>,
    field_delimiter: u8,
    record_delimiter: Seq<u8>,
    quote: u8,
    rest: Seq<u8>,
)
    requires
        values.len() > 0,
        field_delimiter != quote,
        rest.len() == 0 || (rest[0] != quote && rest[0] != field_delimiter),
    ensures
        read_fields(
            seq_join(quote_all(values, quote), seq![field_delimiter]) + rest,
            field_delimiter,
            record_delimiter,
            quote,
        )
            == Some((values, seq_join(quote_all(values, quote), seq![field_delimiter]).len() as int)),
    decreases values.len(),
{
    let q = quote_all(values, quote);
    let sep = seq![field_delimiter];
    let s = seq_join(q, sep) + rest;
    let first = csv_quote(values[0], quote);
    if values.len() == 1 {
        assert(seq_join(q, sep) == first);
        lemma_read_quoted(values[0], quote, rest);
        assert(s =~= first + rest);
        if first.len() < s.len() {
            assert(s[first.len() as int] == rest[0]);
        }
        assert(seq![values[0]] =~= values);
    } else {
        let tail_values = values.drop_first();
        let tq = quote_all(tail_values, quote);
        assert(q =~= seq![first] + tq);
        lemma_join_front(first, tq, sep);
        let after = seq_join(tq, sep) + rest;
        assert(s =~= first + (sep + after));
        lemma_read_quoted(values[0], quote, sep + after);
        assert(s[first.len() as int] == field_delimiter);
        assert(s.skip(first.len() as int + 1) =~= after);
        lemma_read_fields(tail_values, field_delimiter, record_delimiter, quote, rest);
        assert(seq![values[0]] + tail_values =~= values);
    }
}

/// A record of quoted fields reads back as the fields' bytes, when the
/// record delimiter starts with neither the quote character nor the field
/// delimiter, and the field delimiter is not the quote character.
pub proof fn lemma_record_round_trip(
    values: Seq<Seq<u8>>,
    field_delimiter: u8,
    record_delimiter: Seq<u8>,
    quote: u8,
)
    requires
        field_delimiter != quote,
        record_delimiter.len() == 0 || (record_delimiter[0] != quote && record_delimiter[0]
            != field_delimiter),
    ensures
        read_record(
            csv_record(quote_all(values, quote), field_delimiter, record_delimiter),
            field_delimiter,
            record_delimiter,
            quote,
        ) == Some(values),
{
    let s = csv_record(quote_all(values, quote), field_delimiter, record_delimiter);
    if values.len() == 0 {
        assert(quote_all(values, quote) =~= Seq::<Seq<u8>>::empty());
        assert(s =~= record_delimiter);
        assert(values =~= Seq::<Seq<u8>>::empty());
    } else {
        let j = seq_join(quote_all(values, quote), seq![field_delimiter]);
        lemma_read_fields(values, field_delimiter, record_delimiter, quote, record_delimiter);
        assert(s.skip(j.len() as int) =~= record_delimiter);
        assert(s[0] == quote) by {
            if values.len() == 1 {
                assert(j == csv_quote(values[0], quote));
            } else {
                let tq = quote_all(values.drop_first(), quote);
                assert(quote_all(values, quote) =~= seq![csv_quote(values[0], quote)] + tq);
                lemma_join_front(csv_quote(values[0], quote), tq, seq![field_delimiter]);
            }
        }
        if s == record_delimiter {
            assert(record_delimiter[0] == quote);
        }
    }
}

} // verus!

verus! {

/// A record of strings, as `serialize_prefix` writes the header lines,
/// reads back as the strings' bytes.
pub proof fn lemma_strings_record_round_trip(
    values: Seq<String>,
    field_delimiter: u8,
    record_delimiter: Seq<u8>,
    quote: u8,
)
    requires
        field_delimiter != quote,
        record_delimiter.len() == 0 || (record_delimiter[0] != quote && record_delimiter[0]
            != field_delimiter),
    ensures
        read_record(
            csv_record(quoted_strings(values, quote), field_delimiter, record_delimiter),
            field_delimiter,
            record_delimiter,
            quote,
        ) == Some(values.map_values(|s: String| string_bytes(s))),
{
    let bytes = values.map_values(|s: String| string_bytes(s));
    assert(quoted_strings(values, quote) =~= quote_all(bytes, quote));
    lemma_record_round_trip(bytes, field_delimiter, record_delimiter, quote);
}

/// The values of one row of a block.
pub open spec fn row_cells(block: DataBlock, row: int) -> Seq<Cell> {
    Seq::new(block.columns@.len(), |c: int| block.columns@[c]@[row])
}

/// The bytes of a value, as a reader of the record gives them back.
pub open spec fn cell_value(cell: Cell) -> Seq<u8> {
    match cell {
        Cell::Verbatim(b) => b@,
        Cell::Text(b) => b@,
    }
}

/// The bytes of the values of a row of a block.
pub open spec fn row_values(block: DataBlock, row: int) -> Seq<Seq<u8>> {
    row_cells(block, row).map_values(|c: Cell| cell_value(c))
}

/// Bytes written without quotes that read back as themselves: they do not
/// start with the quote character and hold neither the field delimiter nor
/// the first byte of the record delimiter.
pub open spec fn plain_readable(b: Seq<u8>, field_delimiter: u8, record_delimiter: Seq<u8>, quote: u8) -> bool {
    &&& b.len() == 0 || b[0] != quote
    &&& forall|i: int|
        0 <= i < b.len() ==> #[trigger] b[i] != field_delimiter && (record_delimiter.len() == 0
            || b[i] != record_delimiter[0])
}

/// A value that reads back as itself: a quoted one always, an unquoted
/// one when its bytes do.
pub open spec fn cell_readable(cell: Cell, field_delimiter: u8, record_delimiter: Seq<u8>, quote: u8) -> bool {
    match cell {
        Cell::Verbatim(b) => plain_readable(b@, field_delimiter, record_delimiter, quote),
        Cell::Text(_) => true,
    }
}

proof fn lemma_plain_len(b: Seq<u8>, field_delimiter: u8, record_delimiter: Seq<u8>, tail: Seq<u8>)
    requires
        forall|i: int|
            0 <= i < b.len() ==> #[trigger] b[i] != field_delimiter && (record_delimiter.len() == 0
                || b[i] != record_delimiter[0]),
        tail.len() == 0 || tail[0] == field_delimiter || (record_delimiter.len() > 0 && tail[0]
            == record_delimiter[0]),
    ensures
        plain_len(b + tail, field_delimiter, record_delimiter) == b.len(),
    decreases b.len(),
{
    if b.len() == 0 {
        assert(b + tail =~= tail);
    } else {
        let rest = b.drop_first();
        assert forall|i: int| 0 <= i < rest.len() implies #[trigger] rest[i] != field_delimiter && (
        record_delimiter.len() == 0 || rest[i] != record_delimiter[0]) by {
            assert(rest[i] == b[i + 1]);
        }
        lemma_plain_len(rest, field_delimiter, record_delimiter, tail);
        assert((b + tail).skip(1) =~= rest + tail);
        assert((b + tail)[0] == b[0]);
    }
}

proof fn lemma_read_cell(cell: Cell, field_delimiter: u8, record_delimiter: Seq<u8>, quote: u8, tail: Seq<u8>)
    requires
        cell_readable(cell, field_delimiter, record_delimiter, quote),
        field_delimiter != quote,
        record_delimiter.len() == 0 || record_delimiter[0] != quote,
        tail.len() == 0 || tail[0] == field_delimiter || (record_delimiter.len() > 0 && tail[0]
            == record_delimiter[0]),
    ensures
        read_field(cell_bytes(cell, quote) + tail, field_delimiter, record_delimiter, quote) == Some(
            (cell_value(cell), cell_bytes(cell, quote).len() as int),
        ),
{
    let s = cell_bytes(cell, quote) + tail;
    match cell {
        Cell::Text(b) => {
            lemma_read_quoted(b@, quote, tail);
            assert(s[0] == quote);
        },
        Cell::Verbatim(b) => {
            lemma_plain_len(b@, field_delimiter, record_delimiter, tail);
            if b@.len() == 0 {
                assert(s =~= tail);
            } else {
                assert(s[0] == b@[0]);
            }
            assert(s.take(b@.len() as int) =~= b@);
        },
    }
}

proof fn lemma_read_cells(cells: Seq<Cell>, field_delimiter: u8, record_delimiter: Seq<u8>, quote: u8)
    requires
        cells.len() > 0,
        forall|c: int|
            0 <= c < cells.len() ==> cell_readable(
                #[trigger] cells[c],
                field_delimiter,
                record_delimiter,
                quote,
            ),
        field_delimiter != quote,
        record_delimiter.len() == 0 || (record_delimiter[0] != quote && record_delimiter[0]
            != field_delimiter),
    ensures
        read_fields(
            seq_join(cells.map_values(|c: Cell| cell_bytes(c, quote)), seq![field_delimiter])
                + record_delimiter,
            field_delimiter,
            record_delimiter,
            quote,
        ) == Some(
            (
                cells.map_values(|c: Cell| cell_value(c)),
                seq_join(cells.map_values(|c: Cell| cell_bytes(c, quote)), seq![field_delimiter]).len() as int,
            ),
        ),
    decreases cells.len(),
{
    let enc = cells.map_values(|c: Cell| cell_bytes(c, quote));
    let vals = cells.map_values(|c: Cell| cell_value(c));
    let sep = seq![field_delimiter];
    let s = seq_join(enc, sep) + record_delimiter;
    let first = cell_bytes(cells[0], quote);
    assert(cell_readable(cells[0], field_delimiter, record_delimiter, quote));
    if cells.len() == 1 {
        assert(seq_join(enc, sep) == first);
        lemma_read_cell(cells[0], field_delimiter, record_delimiter, quote, record_delimiter);
        assert(s =~= first + record_delimiter);
        if first.len() < s.len() {
            assert(s[first.len() as int] == record_delimiter[0]);
        }
        assert(seq![cell_value(cells[0])] =~= vals);
    } else {
        let rest = cells.drop_first();
        let tenc = rest.map_values(|c: Cell| cell_bytes(c, quote));
        assert(enc =~= seq![first] + tenc);
        lemma_join_front(first, tenc, sep);
        let after = seq_join(tenc, sep) + record_delimiter;
        assert(s =~= first + (sep + after));
        lemma_read_cell(cells[0], field_delimiter, record_delimiter, quote, sep + after);
        assert(s[first.len() as int] == field_delimiter);
        assert(s.skip(first.len() as int + 1) =~= after);
        assert forall|c: int| 0 <= c < rest.len() implies cell_readable(
            #[trigger] rest[c],
            field_delimiter,
            record_delimiter,
            quote,
        ) by {
            assert(rest[c] == cells[c + 1]);
        }
        lemma_read_cells(rest, field_delimiter, record_delimiter, quote);
        assert(seq![cell_value(cells[0])] + rest.map_values(|c: Cell| cell_value(c)) =~= vals);
    }
}

/// The record that `serialize_block` writes for a row of a block reads
/// back as the row's values, when each value written without quotes reads
/// back as itself, a row of a single value does not write it as no bytes,
/// the field delimiter is not the quote character, and the record
/// delimiter starts with neither.
pub proof fn lemma_row_round_trip(
    block: DataBlock,
    row: int,
    field_delimiter: u8,
    record_delimiter: Seq<u8>,
    quote: u8,
)
    requires
        forall|c: int|
            0 <= c < block.columns@.len() ==> cell_readable(
                #[trigger] block.columns@[c]@[row],
                field_delimiter,
                record_delimiter,
                quote,
            ),
        block.columns@.len() == 1 ==> cell_bytes(block.columns@[0]@[row], quote).len() > 0,
        field_delimiter != quote,
        record_delimiter.len() == 0 || (record_delimiter[0] != quote && record_delimiter[0]
            != field_delimiter),
    ensures
        read_record(
            csv_record(row_fields(block, row, quote), field_delimiter, record_delimiter),
            field_delimiter,
            record_delimiter,
            quote,
        ) == Some(row_values(block, row)),
{
    let cells = row_cells(block, row);
    let enc = cells.map_values(|c: Cell| cell_bytes(c, quote));
    let sep = seq![field_delimiter];
    assert(row_fields(block, row, quote) =~= enc);
    let s = csv_record(row_fields(block, row, quote), field_delimiter, record_delimiter);
    if cells.len() == 0 {
        assert(enc =~= Seq::<Seq<u8>>::empty());
        assert(s =~= record_delimiter);
        assert(row_values(block, row) =~= Seq::<Seq<u8>>::empty());
    } else {
        assert forall|c: int| 0 <= c < cells.len() implies cell_readable(
            #[trigger] cells[c],
            field_delimiter,
            record_delimiter,
            quote,
        ) by {
            assert(cells[c] == block.columns@[c]@[row]);
        }
        lemma_read_cells(cells, field_delimiter, record_delimiter, quote);
        let j = seq_join(enc, sep);
        assert(s =~= j + record_delimiter);
        assert(s.skip(j.len() as int) =~= record_delimiter);
        assert(j.len() > 0) by {
            if cells.len() == 1 {
                assert(j == enc[0]);
                assert(cells[0] == block.columns@[0]@[row]);
            } else {
                let tenc = enc.drop_first();
                assert(enc =~= seq![enc[0]] + tenc);
                lemma_join_front(enc[0], tenc, sep);
            }
        }
        assert(s != record_delimiter) by {
            assert(s.len() > record_delimiter.len());
        }
    }
}

} // verus!

//! Decoders for the IDX layouts of the MNIST label and image files.
//!
//! Matrix cells are kept as bytes: a label cell is 0 or 1, an image cell is a
//! pixel intensity in 0..=255. Widening them to floating point is left to the
//! caller.
use vstd::prelude::*;

verus! {

/// Bytes in front of the labels of a label file (magic number, item count).
pub const LABEL_HEADER_LEN: usize = 8;

/// Bytes in front of the pixels of an image file (magic number, item count,
/// row and column counts).
pub const IMAGE_HEADER_LEN: usize = 16;

/// Columns of a label matrix: one per digit.
pub const LABEL_WIDTH: usize = 10;

/// Columns of an image matrix: 28 by 28 pixels, row after row.
pub const IMAGE_WIDTH: usize = 784;

/// Why a file could not be decoded.
#[derive(Clone, Copy, Debug, PartialEq, Eq, Structural)]
pub enum DecodeError {
    /// The file is shorter than its fixed header.
    Truncated,
    /// The pixels after the header do not fill a whole number of images.
    PartialImage,
}

/// The cell at row `r`, column `c` of the one-hot matrix of the label file
/// `bytes`: 1 where the column is the row's label, else 0.
pub open spec fn label_cell(bytes: Seq<u8>, r: int, c: int) -> u8 {
    if bytes[LABEL_HEADER_LEN + r] as int == c {
        1
    } else {
        0
    }
}

/// The pixels of the image file `bytes`: everything after the header.
pub open spec fn image_pixels(bytes: Seq<u8>) -> Seq<u8> {
    bytes.subrange(IMAGE_HEADER_LEN as int, bytes.len() as int)
}

/// A label file whose every label names a digit.
pub open spec fn valid_labels(bytes: Seq<u8>) -> bool {
    &&& bytes.len() >= LABEL_HEADER_LEN
    &&& forall|i: int| LABEL_HEADER_LEN <= i < bytes.len() ==> #[trigger] bytes[i] < 10
}

/// One row per example and ten columns; row `r` is the one-hot encoding of
/// the label of example `r`.
#[derive(Debug)]
pub struct LabelMatrix {
    rows: usize,
    cells: Vec<u8>,
}

impl View for LabelMatrix {
    type V = Seq<u8>;

    /// The cells, row after row.
    closed spec fn view(&self) -> Seq<u8> {
        self.cells@
    }
}

impl LabelMatrix {
    #[verifier::type_invariant]
    spec fn shaped(&self) -> bool {
        self.cells@.len() == LABEL_WIDTH * self.rows
    }

    /// Number of rows.
    pub closed spec fn row_count(&self) -> nat {
        self.rows as nat
    }

    /// The cell at row `r`, column `c`.
    pub open spec fn cell(&self, r: int, c: int) -> u8 {
        self@[LABEL_WIDTH * r + c]
    }

    /// Number of rows.
    pub fn rows(&self) -> (r: usize)
        ensures
            r == self.row_count(),
            self@.len() == LABEL_WIDTH * r,
    {
        proof {
            use_type_invariant(self);
        }
        self.rows
    }

    /// Number of cells, ten per row.
    pub fn len(&self) -> (n: usize)
        ensures
            n == self@.len(),
            n == LABEL_WIDTH * self.row_count(),
    {
        proof {
            use_type_invariant(self);
        }
        self.cells.len()
    }

    /// The cell at row `r`, column `c`.
    pub fn get(&self, r: usize, c: usize) -> (v: u8)
        requires
            r < self.row_count(),
            c < LABEL_WIDTH,
        ensures
            v == self.cell(r as int, c as int),
    {
        let len: usize = self.cells.len();
        proof {
            use_type_invariant(self);
            assert(LABEL_WIDTH * r + c < LABEL_WIDTH * self.rows) by (nonlinear_arith)
                requires
                    r < self.rows,
                    c < LABEL_WIDTH,
            ;
            assert(LABEL_WIDTH * r + c < len);
        }
        self.cells[LABEL_WIDTH * r + c]
    }

    /// The cells, row after row.
    pub fn cells(&self) -> (s: &Vec<u8>)
        ensures
            s@ == self@,
    {
        &self.cells
    }
}

/// One row per example and 784 columns; row `r` holds the pixels of image `r`.
#[derive(Debug)]
pub struct ImageMatrix {
    rows: usize,
    cells: Vec<u8>,
}

impl View for ImageMatrix {
    type V = Seq<u8>;

    /// The cells, row after row.
    closed spec fn view(&self) -> Seq<u8> {
        self.cells@
    }
}

impl ImageMatrix {
    #[verifier::type_invariant]
    spec fn shaped(&self) -> bool {
        self.cells@.len() == IMAGE_WIDTH * self.rows
    }

    /// Number of rows.
    pub closed spec fn row_count(&self) -> nat {
        self.rows as nat
    }

    /// The cell at row `r`, column `c`.
    pub open spec fn cell(&self, r: int, c: int) -> u8 {
        self@[IMAGE_WIDTH * r + c]
    }

    /// Number of rows.
    pub fn rows(&self) -> (r: usize)
        ensures
            r == self.row_count(),
            self@.len() == IMAGE_WIDTH * r,
    {
        proof {
            use_type_invariant(self);
        }
        self.rows
    }

    /// Number of cells, 784 per row.
    pub fn len(&self) -> (n: usize)
        ensures
            n == self@.len(),
            n == IMAGE_WIDTH * self.row_count(),
    {
        proof {
            use_type_invariant(self);
        }
        self.cells.len()
    }

    /// The cell at row `r`, column `c`.
    pub fn get(&self, r: usize, c: usize) -> (v: u8)
        requires
            r < self.row_count(),
            c < IMAGE_WIDTH,
        ensures
            v == self.cell(r as int, c as int),
    {
        let len: usize = self.cells.len();
        proof {
            use_type_invariant(self);
            assert(IMAGE_WIDTH * r + c < IMAGE_WIDTH * self.rows) by (nonlinear_arith)
                requires
                    r < self.rows,
                    c < IMAGE_WIDTH,
            ;
            assert(IMAGE_WIDTH * r + c < len);
        }
        self.cells[IMAGE_WIDTH * r + c]
    }

    /// The cells, row after row.
    pub fn cells(&self) -> (s: &Vec<u8>)
        ensures
            s@ == self@,
    {
        &self.cells
    }
}

/// `m` is the decoding of the label file `bytes`: one row per byte after the
/// header, each the one-hot row of that byte.
pub open spec fn decoded_labels(bytes: Seq<u8>, m: LabelMatrix) -> bool {
    &&& m.row_count() == bytes.len() - LABEL_HEADER_LEN
    &&& m@.len() == LABEL_WIDTH * m.row_count()
    &&& forall|r: int, c: int|
        0 <= r < m.row_count() && 0 <= c < LABEL_WIDTH ==> #[trigger] m.cell(r, c) == label_cell(
            bytes,
            r,
            c,
        )
}

/// `m` is the decoding of the image file `bytes`: the pixels after the header,
/// 784 to a row.
pub open spec fn decoded_images(bytes: Seq<u8>, m: ImageMatrix) -> bool {
    &&& m@ == image_pixels(bytes)
    &&& m.row_count() == (bytes.len() - IMAGE_HEADER_LEN) / (IMAGE_WIDTH as int)
    &&& m@.len() == IMAGE_WIDTH * m.row_count()
}

/// Decodes a label file: skips the 8-byte header, then turns each remaining
/// byte `v` into a row of ten cells with a 1 at column `v` (a byte above 9
/// gives a row of zeros). The header is not checked.
pub fn decode_labels(bytes: &Vec<u8>) -> (res: Result<LabelMatrix, DecodeError>)
    ensures
        bytes@.len() < LABEL_HEADER_LEN <==> res == Err::<LabelMatrix, DecodeError>(
            DecodeError::Truncated,
        ),
        res is Ok <==> labels_decode(bytes@),
        res is Ok ==> decoded_labels(bytes@, res->Ok_0),
{
    if bytes.len() < LABEL_HEADER_LEN {
        return Err(DecodeError::Truncated);
    }
    let n: usize = bytes.len() - LABEL_HEADER_LEN;
    let mut cells: Vec<u8> = Vec::new();
    let mut i: usize = 0;
    while i < n
        invariant
            n == bytes@.len() - LABEL_HEADER_LEN,
            bytes@.len() <= usize::MAX,
            i <= n,
            cells@.len() == LABEL_WIDTH * i,
            forall|r: int, c: int|
                0 <= r < i && 0 <= c < LABEL_WIDTH ==> cells@[LABEL_WIDTH * r + c]
                    == #[trigger] label_cell(bytes@, r, c),
        decreases n - i,
    {
        let v: u8 = bytes[LABEL_HEADER_LEN + i];
        let mut c: u8 = 0;
        while c < 10
            invariant
                i < n,
                n == bytes@.len() - LABEL_HEADER_LEN,
                v == bytes@[LABEL_HEADER_LEN + i],
                c <= 10,
                cells@.len() == LABEL_WIDTH * i + c,
                forall|r: int, k: int|
                    0 <= r < i && 0 <= k < LABEL_WIDTH ==> cells@[LABEL_WIDTH * r + k]
                        == #[trigger] label_cell(bytes@, r, k),
                forall|k: int|
                    0 <= k < c ==> cells@[LABEL_WIDTH * i + k] == #[trigger] label_cell(
                        bytes@,
                        i as int,
                        k,
                    ),
            decreases 10 - c,
        {
            if v == c {
                cells.push(1);
            } else {
                cells.push(0);
            }
            c = c + 1;
        }
        i = i + 1;
    }
    Ok(LabelMatrix { rows: n, cells })
}

/// Decodes an image file: skips the 16-byte header and cuts the remaining
/// bytes into rows of 784 pixels. The header is not checked.
pub fn decode_images(bytes: &Vec<u8>) -> (res: Result<ImageMatrix, DecodeError>)
    ensures
        bytes@.len() < IMAGE_HEADER_LEN <==> res == Err::<ImageMatrix, DecodeError>(
            DecodeError::Truncated,
        ),
        bytes@.len() >= IMAGE_HEADER_LEN && (bytes@.len() - IMAGE_HEADER_LEN) % (
        IMAGE_WIDTH as int) != 0 <==> res == Err::<ImageMatrix, DecodeError>(
            DecodeError::PartialImage,
        ),
        res is Ok <==> images_decode(bytes@),
        res is Ok ==> decoded_images(bytes@, res->Ok_0),
{
    if bytes.len() < IMAGE_HEADER_LEN {
        return Err(DecodeError::Truncated);
    }
    let n: usize = bytes.len() - IMAGE_HEADER_LEN;
    if n % IMAGE_WIDTH != 0 {
        return Err(DecodeError::PartialImage);
    }
    let mut cells: Vec<u8> = Vec::new();
    let mut i: usize = 0;
    while i < n
        invariant
            n == bytes@.len() - IMAGE_HEADER_LEN,
            bytes@.len() <= usize::MAX,
            i <= n,
            cells@ == bytes@.subrange(IMAGE_HEADER_LEN as int, IMAGE_HEADER_LEN + i),
        decreases n - i,
    {
        cells.push(bytes[IMAGE_HEADER_LEN + i]);
        i = i + 1;
    }
    let rows: usize = n / IMAGE_WIDTH;
    assert(cells@.len() == IMAGE_WIDTH * rows);
    Ok(ImageMatrix { rows, cells })
}

/// Row `r` of `m` holds exactly one 1, and its other nine cells are 0.
pub open spec fn one_hot_row(m: LabelMatrix, r: int) -> bool {
    exists|j: int|
        0 <= j < LABEL_WIDTH && #[trigger] m.cell(r, j) == 1 && (forall|k: int|
            0 <= k < LABEL_WIDTH && k != j ==> #[trigger] m.cell(r, k) == 0)
}

/// The four decoded files of the dataset.
#[derive(Debug)]
pub struct Mnist {
    pub test_labels: LabelMatrix,
    pub test_images: ImageMatrix,
    pub train_labels: LabelMatrix,
    pub train_images: ImageMatrix,
}

/// Whether a label file decodes.
pub open spec fn labels_decode(bytes: Seq<u8>) -> bool {
    bytes.len() >= LABEL_HEADER_LEN
}

/// Whether an image file decodes.
pub open spec fn images_decode(bytes: Seq<u8>) -> bool {
    bytes.len() >= IMAGE_HEADER_LEN && (bytes.len() - IMAGE_HEADER_LEN) % (IMAGE_WIDTH as int)
        == 0
}

/// Decodes the four files of the dataset, in the order test labels, test
/// images, training labels, training images; the first that fails to decode
/// fails the whole.
pub fn decode_all(
    test_labels: &Vec<u8>,
    test_images: &Vec<u8>,
    train_labels: &Vec<u8>,
    train_images: &Vec<u8>,
) -> (res: Result<Mnist, DecodeError>)
    ensures
        res is Ok <==> labels_decode(test_labels@) && images_decode(test_images@)
            && labels_decode(train_labels@) && images_decode(train_images@),
        res is Ok ==> {
            let m = res->Ok_0;
            &&& decoded_labels(test_labels@, m.test_labels)
            &&& decoded_images(test_images@, m.test_images)
            &&& decoded_labels(train_labels@, m.train_labels)
            &&& decoded_images(train_images@, m.train_images)
        },
        res matches Err(e) ==> {
            ||| !labels_decode(test_labels@) && e == DecodeError::Truncated
            ||| labels_decode(test_labels@) && !images_decode(test_images@) && (e
                == DecodeError::Truncated <==> test_images@.len() < IMAGE_HEADER_LEN)
            ||| labels_decode(test_labels@) && images_decode(test_images@) && !labels_decode(
                train_labels@,
            ) && e == DecodeError::Truncated
            ||| labels_decode(test_labels@) && images_decode(test_images@) && labels_decode(
                train_labels@,
            ) && !images_decode(train_images@) && (e == DecodeError::Truncated
                <==> train_images@.len() < IMAGE_HEADER_LEN)
        },
{
    let test_labels = decode_labels(test_labels)?;
    let test_images = decode_images(test_images)?;
    let train_labels = decode_labels(train_labels)?;
    let train_images = decode_images(train_images)?;
    Ok(Mnist { test_labels, test_images, train_labels, train_images })
}

/// A label file whose labels are all digits decodes to one row per label, and
/// each row holds exactly one 1 and nine 0s, the 1 at the column of the label.
pub proof fn lemma_labels_one_hot(bytes: Seq<u8>, m: LabelMatrix)
    requires
        valid_labels(bytes),
        decoded_labels(bytes, m),
    ensures
        m.row_count() == bytes.len() - LABEL_HEADER_LEN,
        forall|r: int| 0 <= r < m.row_count() ==> #[trigger] one_hot_row(m, r),
{
    assert forall|r: int| 0 <= r < m.row_count() implies #[trigger] one_hot_row(m, r) by {
        let j = bytes[LABEL_HEADER_LEN + r] as int;
        assert(bytes[LABEL_HEADER_LEN + r] < 10);
        assert(m.cell(r, j) == label_cell(bytes, r, j));
    }
}

/// An image file whose pixels fill whole images decodes to (length - 16) / 784
/// rows of 784 cells, each cell the value of its byte in the file.
pub proof fn lemma_images_exact(bytes: Seq<u8>, m: ImageMatrix)
    requires
        bytes.len() >= IMAGE_HEADER_LEN,
        (bytes.len() - IMAGE_HEADER_LEN) % (IMAGE_WIDTH as int) == 0,
        decoded_images(bytes, m),
    ensures
        m.row_count() == (bytes.len() - IMAGE_HEADER_LEN) / (IMAGE_WIDTH as int),
        m@.len() == IMAGE_WIDTH * m.row_count(),
        IMAGE_WIDTH * m.row_count() == bytes.len() - IMAGE_HEADER_LEN,
        forall|r: int, c: int|
            0 <= r < m.row_count() && 0 <= c < IMAGE_WIDTH ==> #[trigger] m.cell(r, c)
                == bytes[IMAGE_HEADER_LEN + IMAGE_WIDTH * r + c],
{
    let rows = m.row_count() as int;
    assert forall|r: int, c: int| 0 <= r < rows && 0 <= c < IMAGE_WIDTH implies #[trigger] m.cell(
        r,
        c,
    ) == bytes[IMAGE_HEADER_LEN + IMAGE_WIDTH * r + c] by {
        assert(IMAGE_WIDTH * r + c < IMAGE_WIDTH * rows) by (nonlinear_arith)
            requires
                r < rows,
                c < IMAGE_WIDTH,
        ;
    }
}

/// Examples in the test split of the standard files.
pub const TEST_EXAMPLES: usize = 10000;

/// Examples in the training split of the standard files.
pub const TRAIN_EXAMPLES: usize = 60000;

/// For a label file and an image file of the same split, with `examples`
/// entries each (10,000 for the test split, 60,000 for the training split),
/// the label rows times 784 equal the image cells, and the row counts agree.
pub proof fn lemma_matched_split(
    labels: Seq<u8>,
    images: Seq<u8>,
    examples: nat,
    lm: LabelMatrix,
    im: ImageMatrix,
)
    requires
        labels.len() == LABEL_HEADER_LEN + examples,
        images.len() == IMAGE_HEADER_LEN + IMAGE_WIDTH * examples,
        decoded_labels(labels, lm),
        decoded_images(images, im),
    ensures
        lm.row_count() * IMAGE_WIDTH == im@.len(),
        lm.row_count() == im.row_count(),
        lm.row_count() == examples,
{
}

} // verus!

use std::cell::RefCell;

use libpd_rs::error::{ArrayError, SizeError};
use libpd_rs::functions::array::{array_size, read_array_from, resize_array, write_array_to};

/// A stand-in for the arrays of a loaded patch: one array named `sketch_pad`.
struct SketchPad {
    values: RefCell<Vec<f64>>,
}

const SIZE_LIMIT: i64 = 1 << 20;

impl SketchPad {
    fn new() -> Self {
        SketchPad {
            values: RefCell::new(vec![0.0; 100]),
        }
    }

    fn size(&self, name: &str) -> i32 {
        if name == "sketch_pad" {
            self.values.borrow().len() as i32
        } else {
            -1
        }
    }

    fn resize(&self, name: &str, size: i64) -> i32 {
        if name != "sketch_pad" {
            return -1;
        }
        let n = if size < 1 || size > SIZE_LIMIT { 1 } else { size as usize };
        self.values.borrow_mut().resize(n, 0.0);
        0
    }

    fn read_f32(&self, destination: &mut [f32], offset: i32, amount: i32) -> i32 {
        let values = self.values.borrow();
        if offset < 0 || (offset + amount) as usize > values.len() {
            return -2;
        }
        for i in 0..amount as usize {
            destination[i] = values[offset as usize + i] as f32;
        }
        0
    }

    fn write_f32(&self, source: &[f32], offset: i32, amount: i32) -> i32 {
        let mut values = self.values.borrow_mut();
        if offset < 0 || (offset + amount) as usize > values.len() {
            return -2;
        }
        for i in 0..amount as usize {
            values[offset as usize + i] = f64::from(source[i]);
        }
        0
    }

    fn read_f64(&self, destination: &mut [f64], offset: i32, amount: i32) -> i32 {
        let values = self.values.borrow();
        if offset < 0 || (offset + amount) as usize > values.len() {
            return -2;
        }
        destination[..amount as usize]
            .copy_from_slice(&values[offset as usize..(offset + amount) as usize]);
        0
    }

    fn write_f64(&self, source: &[f64], offset: i32, amount: i32) -> i32 {
        let mut values = self.values.borrow_mut();
        if offset < 0 || (offset + amount) as usize > values.len() {
            return -2;
        }
        values[offset as usize..(offset + amount) as usize]
            .copy_from_slice(&source[..amount as usize]);
        0
    }
}

fn read_float_array_from(
    pad: &SketchPad,
    name: &str,
    offset: i32,
    amount: i32,
    destination: &mut [f32],
) -> Result<(), ArrayError> {
    let len = destination.len();
    read_array_from(name, offset, amount, len, &|n: &str| pad.size(n), |_: &str, o: i32, a: i32| {
        pad.read_f32(destination, o, a)
    })
}

fn write_float_array_to(
    pad: &SketchPad,
    name: &str,
    offset: i32,
    source: &[f32],
    amount: i32,
) -> Result<(), ArrayError> {
    write_array_to(name, offset, source.len(), amount, &|n: &str| pad.size(n), |_: &str, o: i32, a: i32| {
        pad.write_f32(source, o, a)
    })
}

fn read_double_array_from(
    pad: &SketchPad,
    name: &str,
    offset: i32,
    amount: i32,
    destination: &mut [f64],
) -> Result<(), ArrayError> {
    let len = destination.len();
    read_array_from(name, offset, amount, len, &|n: &str| pad.size(n), |_: &str, o: i32, a: i32| {
        pad.read_f64(destination, o, a)
    })
}

fn write_double_array_to(
    pad: &SketchPad,
    name: &str,
    offset: i32,
    source: &[f64],
    amount: i32,
) -> Result<(), ArrayError> {
    write_array_to(name, offset, source.len(), amount, &|n: &str| pad.size(n), |_: &str, o: i32, a: i32| {
        pad.write_f64(source, o, a)
    })
}

#[test]
fn apply_array_operations_in_a_row() {
    let pad = SketchPad::new();
    let size_of = |n: &str| pad.size(n);
    let resize = |n: &str, s: i64| pad.resize(n, s);

    let bad_name = "not_exists";
    let sketch_pad = "sketch_pad";

    assert!(array_size(bad_name, &size_of).is_err());

    // Default
    let size = array_size(sketch_pad, &size_of).unwrap();
    assert_eq!(size, 100);

    assert!(resize_array(bad_name, 1024, &resize).is_err());

    resize_array(sketch_pad, -1, &resize).unwrap();
    let size = array_size(sketch_pad, &size_of).unwrap();
    assert_eq!(size, 1);

    resize_array(sketch_pad, 0, &resize).unwrap();
    let size = array_size(sketch_pad, &size_of).unwrap();
    assert_eq!(size, 1);

    // Protected with size limits. Over the limit is also 1.
    resize_array(sketch_pad, i32::MAX, &resize).unwrap();
    let size = array_size(sketch_pad, &size_of).unwrap();
    assert_eq!(size, 1);

    resize_array(sketch_pad, 1024, &resize).unwrap();
    let size = array_size(sketch_pad, &size_of).unwrap();
    assert_eq!(size, 1024);

    resize_array(sketch_pad, 8, &resize).unwrap();

    // Reading and writing works floats.
    let will_write_a: Vec<f32> = vec![0.0, 0.0, 1.0, 1.0];
    let will_write_b: Vec<f32> = vec![1.0, 1.0, 0.0, 0.0];
    let mut read_to: Vec<f32> = vec![0.0; 4];

    write_float_array_to(&pad, sketch_pad, 0, &will_write_a, 4).unwrap();
    read_float_array_from(&pad, sketch_pad, 0, 4, &mut read_to).unwrap();
    assert_eq!(read_to, will_write_a);

    // Reading and writing works doubles.
    let will_write_c: Vec<f64> = vec![0.0, 0.0, 1.0, 1.0];
    let will_write_d: Vec<f64> = vec![1.0, 1.0, 0.0, 0.0];
    let mut read_to: Vec<f64> = vec![0.0; 4];

    write_double_array_to(&pad, sketch_pad, 0, &will_write_c, 4).unwrap();
    read_double_array_from(&pad, sketch_pad, 0, 4, &mut read_to).unwrap();
    assert_eq!(read_to, will_write_c);

    // Clear float arrays.
    let mut read_to: Vec<f32> = vec![0.0; 4];
    write_float_array_to(&pad, sketch_pad, 0, &[0.0, 0.0, 0.0, 0.0], 4).unwrap();

    // Offsets
    write_float_array_to(&pad, sketch_pad, 2, &will_write_b, 4).unwrap();
    read_float_array_from(&pad, sketch_pad, 0, 4, &mut read_to).unwrap();
    assert_ne!(read_to, will_write_b);

    // Clear float arrays.
    let mut read_to: Vec<f64> = vec![0.0; 4];
    write_float_array_to(&pad, sketch_pad, 0, &[0.0, 0.0, 0.0, 0.0], 4).unwrap();

    // Offsets
    write_double_array_to(&pad, sketch_pad, 2, &will_write_d, 4).unwrap();
    read_double_array_from(&pad, sketch_pad, 0, 4, &mut read_to).unwrap();
    assert_ne!(read_to, will_write_d);
}

#[test]
fn array_errors() {
    let pad = SketchPad::new();
    let size_of = |n: &str| pad.size(n);
    pad.resize("sketch_pad", 8);

    assert_eq!(
        array_size("missing", &size_of),
        Err(SizeError::CouldNotDetermine)
    );
    assert!(matches!(
        array_size("bad\0name", &size_of),
        Err(SizeError::StringConversion(_))
    ));
    assert_eq!(
        resize_array("sketch_pad", 16, &|_: &str, _: i64| -3),
        Err(SizeError::CouldNotDetermine)
    );

    let mut four: Vec<f32> = vec![0.0; 4];
    assert_eq!(
        read_float_array_from(&pad, "missing", 0, 4, &mut four),
        Err(ArrayError::FailedToFindArray)
    );
    // The range runs past the end of the array.
    assert_eq!(
        read_float_array_from(&pad, "sketch_pad", 6, 4, &mut four),
        Err(ArrayError::OutOfBounds)
    );
    // A negative amount is refused.
    assert_eq!(
        read_float_array_from(&pad, "sketch_pad", 0, -1, &mut four),
        Err(ArrayError::OutOfBounds)
    );
    // The buffer is shorter than the amount.
    let mut two: Vec<f32> = vec![0.0; 2];
    assert_eq!(
        read_float_array_from(&pad, "sketch_pad", 0, 4, &mut two),
        Err(ArrayError::OutOfBounds)
    );
    assert_eq!(
        write_float_array_to(&pad, "sketch_pad", 0, &[1.0, 2.0], 3),
        Err(ArrayError::OutOfBounds)
    );
    assert!(pad.values.borrow().iter().all(|v| *v == 0.0));
    assert_eq!(four, vec![0.0; 4]);
    // A negative offset reaches libpd, which refuses it.
    assert_eq!(
        write_float_array_to(&pad, "sketch_pad", -1, &[1.0, 2.0], 2),
        Err(ArrayError::FailedToFindArray)
    );
    assert!(matches!(
        write_double_array_to(&pad, "sketch\0pad", 0, &[1.0], 1),
        Err(ArrayError::StringConversion(_))
    ));
}

#[test]
fn array_write_then_read_at_offset() {
    let pad = SketchPad::new();
    pad.resize("sketch_pad", 8);
    write_double_array_to(&pad, "sketch_pad", 3, &[4.0, 5.0], 2).unwrap();
    let mut read_to: Vec<f64> = vec![0.0; 3];
    read_double_array_from(&pad, "sketch_pad", 2, 3, &mut read_to).unwrap();
    assert_eq!(read_to, vec![0.0, 4.0, 5.0]);
}

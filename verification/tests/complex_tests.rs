use ralg::complex::Complex;

#[test]
fn complex_product_and_conjugate() {
    let z = Complex::new(3, 4);
    assert_eq!(z * z, Complex::new(-7, 24));

    let w = Complex::new(4, 5);
    assert_eq!(w.conj(), Complex::new(4, -5));
}

#[test]
fn complex_arithmetic() {
    assert_eq!(Complex::new(3, 5) * Complex::new(6, 2), Complex::new(8, 36));
    let z = Complex::new(6, 7);
    assert_eq!(z * z, Complex::new(-13, 84));

    assert_eq!(Complex::new(3, 20) + Complex::new(4, -5), Complex::new(7, 15));
    let z = Complex::new(3, 20);
    assert_eq!(z + 5, Complex::new(8, 20));

    assert_eq!(Complex::new(3, 4) - Complex::new(7, 5), Complex::new(-4, -1));
    assert_eq!(Complex::new(3, 4) - 2, Complex::new(1, 4));

    assert_eq!(Complex::new(6, -2) * -4, Complex::new(-24, 8));
    assert_eq!(-Complex::new(1, -2), Complex::new(-1, 2));
}

#[test]
fn complex_constructors() {
    assert_eq!(Complex::<i32>::i(), Complex::new(0, 1));
    assert_eq!(Complex::from_real(7), Complex::new(7, 0));
    assert_eq!(Complex::norm(Complex::new(3, 4)), 25);

    let v = Complex::from_real_vec(vec![1, 4, -6]);
    assert_eq!(
        v,
        vec![Complex::new(1, 0), Complex::new(4, 0), Complex::new(-6, 0)]
    );
}

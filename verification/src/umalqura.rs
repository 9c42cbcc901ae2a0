//! The Umm al-Qura month-length table and the day-number axis built on it.
//!
//! The supported range is Hijri 1356-01 through 1500-12.  For every month of
//! every year in that range the table holds its length, 29 or 30 days; the
//! lengths are administratively determined historical data, not the result
//! of a formula.  Day numbers count days from 1356-01-01, the first day the
//! table covers.

use vstd::prelude::*;

verus! {

/// First Hijri year the table covers.
pub const FIRST_YEAR: usize = 1356;

/// Last Hijri year the table covers.
pub const LAST_YEAR: usize = 1500;

/// Number of months the table covers: 145 years of 12 months.
pub const MONTH_COUNT: usize = 1740;

/// Length of month 1 across the table years.
pub open spec fn month_len_c1(y: int) -> int {
    if y == 1356 {
        29
    } else if y == 1357 {
        29
    } else if y == 1358 {
        29
    } else if y == 1359 {
        29
    } else if y == 1360 {
        29
    } else if y == 1361 {
        30
    } else if y == 1362 {
        29
    } else if y == 1363 {
        30
    } else if y == 1364 {
        29
    } else if y == 1365 {
        30
    } else if y == 1366 {
        30
    } else if y == 1367 {
        30
    } else if y == 1368 {
        29
    } else if y == 1369 {
        30
    } else if y == 1370 {
        30
    } else if y == 1371 {
        29
    } else if y == 1372 {
        30
    } else if y == 1373 {
        30
    } else if y == 1374 {
        30
    } else if y == 1375 {
        30
    } else if y == 1376 {
        29
    } else if y == 1377 {
        29
    } else if y == 1378 {
        30
    } else if y == 1379 {
        29
    } else if y == 1380 {
        29
    } else if y == 1381 {
        29
    } else if y == 1382 {
        29
    } else if y == 1383 {
        30
    } else if y == 1384 {
        29
    } else if y == 1385 {
        29
    } else if y == 1386 {
        30
    } else if y == 1387 {
        30
    } else if y == 1388 {
        30
    } else if y == 1389 {
        30
    } else if y == 1390 {
        29
    } else if y == 1391 {
        29
    } else if y == 1392 {
        30
    } else if y == 1393 {
        29
    } else if y == 1394 {
        30
    } else if y == 1395 {
        30
    } else if y == 1396 {
        30
    } else if y == 1397 {
        30
    } else if y == 1398 {
        29
    } else if y == 1399 {
        30
    } else if y == 1400 {
        30
    } else if y == 1401 {
        30
    } else if y == 1402 {
        30
    } else if y == 1403 {
        30
    } else if y == 1404 {
        29
    } else if y == 1405 {
        30
    } else if y == 1406 {
        30
    } else if y == 1407 {
        29
    } else if y == 1408 {
        30
    } else if y == 1409 {
        30
    } else if y == 1410 {
        30
    } else if y == 1411 {
        30
    } else if y == 1412 {
        30
    } else if y == 1413 {
        29
    } else if y == 1414 {
        30
    } else if y == 1415 {
        29
    } else if y == 1416 {
        30
    } else if y == 1417 {
        30
    } else if y == 1418 {
        30
    } else if y == 1419 {
        29
    } else if y == 1420 {
        29
    } else if y == 1421 {
        29
    } else if y == 1422 {
        30
    } else if y == 1423 {
        30
    } else if y == 1424 {
        30
    } else if y == 1425 {
        30
    } else if y == 1426 {
        29
    } else if y == 1427 {
        29
    } else if y == 1428 {
        30
    } else if y == 1429 {
        29
    } else if y == 1430 {
        29
    } else if y == 1431 {
        29
    } else if y == 1432 {
        29
    } else if y == 1433 {
        30
    } else if y == 1434 {
        29
    } else if y == 1435 {
        30
    } else if y == 1436 {
        29
    } else if y == 1437 {
        30
    } else if y == 1438 {
        30
    } else if y == 1439 {
        30
    } else if y == 1440 {
        29
    } else if y == 1441 {
        30
    } else if y == 1442 {
        29
    } else if y == 1443 {
        30
    } else if y == 1444 {
        29
    } else if y == 1445 {
        29
    } else if y == 1446 {
        29
    } else if y == 1447 {
        30
    } else if y == 1448 {
        29
    } else if y == 1449 {
        29
    } else if y == 1450 {
        30
    } else if y == 1451 {
        30
    } else if y == 1452 {
        30
    } else if y == 1453 {
        30
    } else if y == 1454 {
        30
    } else if y == 1455 {
        29
    } else if y == 1456 {
        29
    } else if y == 1457 {
        30
    } else if y == 1458 {
        29
    } else if y == 1459 {
        29
    } else if y == 1460 {
        29
    } else if y == 1461 {
        29
    } else if y == 1462 {
        30
    } else if y == 1463 {
        29
    } else if y == 1464 {
        29
    } else if y == 1465 {
        30
    } else if y == 1466 {
        30
    } else if y == 1467 {
        30
    } else if y == 1468 {
        29
    } else if y == 1469 {
        29
    } else if y == 1470 {
        29
    } else if y == 1471 {
        30
    } else if y == 1472 {
        29
    } else if y == 1473 {
        29
    } else if y == 1474 {
        29
    } else if y == 1475 {
        29
    } else if y == 1476 {
        30
    } else if y == 1477 {
        29
    } else if y == 1478 {
        29
    } else if y == 1479 {
        30
    } else if y == 1480 {
        30
    } else if y == 1481 {
        30
    } else if y == 1482 {
        30
    } else if y == 1483 {
        29
    } else if y == 1484 {
        29
    } else if y == 1485 {
        30
    } else if y == 1486 {
        29
    } else if y == 1487 {
        30
    } else if y == 1488 {
        30
    } else if y == 1489 {
        30
    } else if y == 1490 {
        29
    } else if y == 1491 {
        30
    } else if y == 1492 {
        29
    } else if y == 1493 {
        30
    } else if y == 1494 {
        29
    } else if y == 1495 {
        29
    } else if y == 1496 {
        29
    } else if y == 1497 {
        30
    } else if y == 1498 {
        29
    } else if y == 1499 {
        30
    } else if y == 1500 {
        29
    } else {
        29
    }
}

/// Length of month 2 across the table years.
pub open spec fn month_len_c2(y: int) -> int {
    if y == 1356 {
        30
    } else if y == 1357 {
        29
    } else if y == 1358 {
        30
    } else if y == 1359 {
        30
    } else if y == 1360 {
        30
    } else if y == 1361 {
        29
    } else if y == 1362 {
        30
    } else if y == 1363 {
        29
    } else if y == 1364 {
        30
    } else if y == 1365 {
        30
    } else if y == 1366 {
        30
    } else if y == 1367 {
        30
    } else if y == 1368 {
        30
    } else if y == 1369 {
        29
    } else if y == 1370 {
        29
    } else if y == 1371 {
        30
    } else if y == 1372 {
        29
    } else if y == 1373 {
        29
    } else if y == 1374 {
        29
    } else if y == 1375 {
        29
    } else if y == 1376 {
        30
    } else if y == 1377 {
        29
    } else if y == 1378 {
        29
    } else if y == 1379 {
        30
    } else if y == 1380 {
        30
    } else if y == 1381 {
        30
    } else if y == 1382 {
        30
    } else if y == 1383 {
        29
    } else if y == 1384 {
        30
    } else if y == 1385 {
        29
    } else if y == 1386 {
        29
    } else if y == 1387 {
        29
    } else if y == 1388 {
        30
    } else if y == 1389 {
        30
    } else if y == 1390 {
        30
    } else if y == 1391 {
        29
    } else if y == 1392 {
        29
    } else if y == 1393 {
        30
    } else if y == 1394 {
        29
    } else if y == 1395 {
        29
    } else if y == 1396 {
        29
    } else if y == 1397 {
        29
    } else if y == 1398 {
        30
    } else if y == 1399 {
        29
    } else if y == 1400 {
        29
    } else if y == 1401 {
        30
    } else if y == 1402 {
        30
    } else if y == 1403 {
        30
    } else if y == 1404 {
        30
    } else if y == 1405 {
        29
    } else if y == 1406 {
        29
    } else if y == 1407 {
        30
    } else if y == 1408 {
        29
    } else if y == 1409 {
        30
    } else if y == 1410 {
        30
    } else if y == 1411 {
        30
    } else if y == 1412 {
        29
    } else if y == 1413 {
        30
    } else if y == 1414 {
        29
    } else if y == 1415 {
        30
    } else if y == 1416 {
        29
    } else if y == 1417 {
        29
    } else if y == 1418 {
        29
    } else if y == 1419 {
        30
    } else if y == 1420 {
        30
    } else if y == 1421 {
        29
    } else if y == 1422 {
        29
    } else if y == 1423 {
        29
    } else if y == 1424 {
        29
    } else if y == 1425 {
        29
    } else if y == 1426 {
        30
    } else if y == 1427 {
        29
    } else if y == 1428 {
        29
    } else if y == 1429 {
        30
    } else if y == 1430 {
        30
    } else if y == 1431 {
        30
    } else if y == 1432 {
        30
    } else if y == 1433 {
        29
    } else if y == 1434 {
        30
    } else if y == 1435 {
        29
    } else if y == 1436 {
        30
    } else if y == 1437 {
        29
    } else if y == 1438 {
        29
    } else if y == 1439 {
        29
    } else if y == 1440 {
        30
    } else if y == 1441 {
        29
    } else if y == 1442 {
        30
    } else if y == 1443 {
        29
    } else if y == 1444 {
        30
    } else if y == 1445 {
        30
    } else if y == 1446 {
        30
    } else if y == 1447 {
        29
    } else if y == 1448 {
        30
    } else if y == 1449 {
        29
    } else if y == 1450 {
        29
    } else if y == 1451 {
        30
    } else if y == 1452 {
        29
    } else if y == 1453 {
        29
    } else if y == 1454 {
        29
    } else if y == 1455 {
        30
    } else if y == 1456 {
        29
    } else if y == 1457 {
        29
    } else if y == 1458 {
        30
    } else if y == 1459 {
        30
    } else if y == 1460 {
        30
    } else if y == 1461 {
        30
    } else if y == 1462 {
        29
    } else if y == 1463 {
        30
    } else if y == 1464 {
        30
    } else if y == 1465 {
        29
    } else if y == 1466 {
        30
    } else if y == 1467 {
        30
    } else if y == 1468 {
        30
    } else if y == 1469 {
        30
    } else if y == 1470 {
        29
    } else if y == 1471 {
        29
    } else if y == 1472 {
        30
    } else if y == 1473 {
        30
    } else if y == 1474 {
        30
    } else if y == 1475 {
        30
    } else if y == 1476 {
        29
    } else if y == 1477 {
        30
    } else if y == 1478 {
        29
    } else if y == 1479 {
        29
    } else if y == 1480 {
        29
    } else if y == 1481 {
        29
    } else if y == 1482 {
        29
    } else if y == 1483 {
        30
    } else if y == 1484 {
        29
    } else if y == 1485 {
        29
    } else if y == 1486 {
        30
    } else if y == 1487 {
        29
    } else if y == 1488 {
        29
    } else if y == 1489 {
        29
    } else if y == 1490 {
        30
    } else if y == 1491 {
        29
    } else if y == 1492 {
        30
    } else if y == 1493 {
        29
    } else if y == 1494 {
        30
    } else if y == 1495 {
        30
    } else if y == 1496 {
        30
    } else if y == 1497 {
        29
    } else if y == 1498 {
        30
    } else if y == 1499 {
        29
    } else if y == 1500 {
        30
    } else {
        29
    }
}

/// Length of month 3 across the table years.
pub open spec fn month_len_c3(y: int) -> int {
    if y == 1356 {
        29
    } else if y == 1357 {
        30
    } else if y == 1358 {
        29
    } else if y == 1359 {
        30
    } else if y == 1360 {
        30
    } else if y == 1361 {
        30
    } else if y == 1362 {
        29
    } else if y == 1363 {
        30
    } else if y == 1364 {
        29
    } else if y == 1365 {
        29
    } else if y == 1366 {
        29
    } else if y == 1367 {
        29
    } else if y == 1368 {
        29
    } else if y == 1369 {
        30
    } else if y == 1370 {
        29
    } else if y == 1371 {
        29
    } else if y == 1372 {
        29
    } else if y == 1373 {
        30
    } else if y == 1374 {
        30
    } else if y == 1375 {
        30
    } else if y == 1376 {
        29
    } else if y == 1377 {
        30
    } else if y == 1378 {
        29
    } else if y == 1379 {
        29
    } else if y == 1380 {
        29
    } else if y == 1381 {
        29
    } else if y == 1382 {
        29
    } else if y == 1383 {
        29
    } else if y == 1384 {
        29
    } else if y == 1385 {
        30
    } else if y == 1386 {
        29
    } else if y == 1387 {
        30
    } else if y == 1388 {
        29
    } else if y == 1389 {
        29
    } else if y == 1390 {
        29
    } else if y == 1391 {
        30
    } else if y == 1392 {
        29
    } else if y == 1393 {
        29
    } else if y == 1394 {
        30
    } else if y == 1395 {
        30
    } else if y == 1396 {
        30
    } else if y == 1397 {
        30
    } else if y == 1398 {
        29
    } else if y == 1399 {
        30
    } else if y == 1400 {
        30
    } else if y == 1401 {
        29
    } else if y == 1402 {
        30
    } else if y == 1403 {
        30
    } else if y == 1404 {
        30
    } else if y == 1405 {
        30
    } else if y == 1406 {
        29
    } else if y == 1407 {
        29
    } else if y == 1408 {
        30
    } else if y == 1409 {
        29
    } else if y == 1410 {
        29
    } else if y == 1411 {
        29
    } else if y == 1412 {
        30
    } else if y == 1413 {
        29
    } else if y == 1414 {
        30
    } else if y == 1415 {
        29
    } else if y == 1416 {
        30
    } else if y == 1417 {
        30
    } else if y == 1418 {
        30
    } else if y == 1419 {
        29
    } else if y == 1420 {
        29
    } else if y == 1421 {
        30
    } else if y == 1422 {
        29
    } else if y == 1423 {
        30
    } else if y == 1424 {
        30
    } else if y == 1425 {
        30
    } else if y == 1426 {
        29
    } else if y == 1427 {
        30
    } else if y == 1428 {
        29
    } else if y == 1429 {
        29
    } else if y == 1430 {
        30
    } else if y == 1431 {
        30
    } else if y == 1432 {
        30
    } else if y == 1433 {
        30
    } else if y == 1434 {
        29
    } else if y == 1435 {
        30
    } else if y == 1436 {
        29
    } else if y == 1437 {
        30
    } else if y == 1438 {
        30
    } else if y == 1439 {
        30
    } else if y == 1440 {
        29
    } else if y == 1441 {
        30
    } else if y == 1442 {
        29
    } else if y == 1443 {
        30
    } else if y == 1444 {
        29
    } else if y == 1445 {
        30
    } else if y == 1446 {
        30
    } else if y == 1447 {
        30
    } else if y == 1448 {
        29
    } else if y == 1449 {
        30
    } else if y == 1450 {
        30
    } else if y == 1451 {
        30
    } else if y == 1452 {
        30
    } else if y == 1453 {
        30
    } else if y == 1454 {
        30
    } else if y == 1455 {
        29
    } else if y == 1456 {
        30
    } else if y == 1457 {
        29
    } else if y == 1458 {
        29
    } else if y == 1459 {
        30
    } else if y == 1460 {
        30
    } else if y == 1461 {
        30
    } else if y == 1462 {
        30
    } else if y == 1463 {
        29
    } else if y == 1464 {
        29
    } else if y == 1465 {
        30
    } else if y == 1466 {
        29
    } else if y == 1467 {
        29
    } else if y == 1468 {
        29
    } else if y == 1469 {
        29
    } else if y == 1470 {
        30
    } else if y == 1471 {
        29
    } else if y == 1472 {
        29
    } else if y == 1473 {
        29
    } else if y == 1474 {
        30
    } else if y == 1475 {
        30
    } else if y == 1476 {
        30
    } else if y == 1477 {
        29
    } else if y == 1478 {
        30
    } else if y == 1479 {
        29
    } else if y == 1480 {
        30
    } else if y == 1481 {
        30
    } else if y == 1482 {
        30
    } else if y == 1483 {
        29
    } else if y == 1484 {
        30
    } else if y == 1485 {
        29
    } else if y == 1486 {
        29
    } else if y == 1487 {
        30
    } else if y == 1488 {
        30
    } else if y == 1489 {
        30
    } else if y == 1490 {
        29
    } else if y == 1491 {
        29
    } else if y == 1492 {
        29
    } else if y == 1493 {
        30
    } else if y == 1494 {
        29
    } else if y == 1495 {
        30
    } else if y == 1496 {
        30
    } else if y == 1497 {
        30
    } else if y == 1498 {
        29
    } else if y == 1499 {
        30
    } else if y == 1500 {
        29
    } else {
        29
    }
}

/// Length of month 4 across the table years.
pub open spec fn month_len_c4(y: int) -> int {
    if y == 1356 {
        30
    } else if y == 1357 {
        29
    } else if y == 1358 {
        30
    } else if y == 1359 {
        29
    } else if y == 1360 {
        30
    } else if y == 1361 {
        30
    } else if y == 1362 {
        30
    } else if y == 1363 {
        29
    } else if y == 1364 {
        30
    } else if y == 1365 {
        29
    } else if y == 1366 {
        30
    } else if y == 1367 {
        30
    } else if y == 1368 {
        30
    } else if y == 1369 {
        29
    } else if y == 1370 {
        30
    } else if y == 1371 {
        29
    } else if y == 1372 {
        30
    } else if y == 1373 {
        29
    } else if y == 1374 {
        30
    } else if y == 1375 {
        30
    } else if y == 1376 {
        30
    } else if y == 1377 {
        29
    } else if y == 1378 {
        29
    } else if y == 1379 {
        29
    } else if y == 1380 {
        30
    } else if y == 1381 {
        30
    } else if y == 1382 {
        30
    } else if y == 1383 {
        30
    } else if y == 1384 {
        29
    } else if y == 1385 {
        29
    } else if y == 1386 {
        30
    } else if y == 1387 {
        29
    } else if y == 1388 {
        30
    } else if y == 1389 {
        30
    } else if y == 1390 {
        30
    } else if y == 1391 {
        29
    } else if y == 1392 {
        30
    } else if y == 1393 {
        29
    } else if y == 1394 {
        29
    } else if y == 1395 {
        30
    } else if y == 1396 {
        30
    } else if y == 1397 {
        30
    } else if y == 1398 {
        30
    } else if y == 1399 {
        29
    } else if y == 1400 {
        29
    } else if y == 1401 {
        30
    } else if y == 1402 {
        29
    } else if y == 1403 {
        29
    } else if y == 1404 {
        29
    } else if y == 1405 {
        29
    } else if y == 1406 {
        30
    } else if y == 1407 {
        29
    } else if y == 1408 {
        29
    } else if y == 1409 {
        30
    } else if y == 1410 {
        30
    } else if y == 1411 {
        30
    } else if y == 1412 {
        29
    } else if y == 1413 {
        29
    } else if y == 1414 {
        29
    } else if y == 1415 {
        30
    } else if y == 1416 {
        29
    } else if y == 1417 {
        30
    } else if y == 1418 {
        30
    } else if y == 1419 {
        30
    } else if y == 1420 {
        29
    } else if y == 1421 {
        29
    } else if y == 1422 {
        30
    } else if y == 1423 {
        29
    } else if y == 1424 {
        30
    } else if y == 1425 {
        30
    } else if y == 1426 {
        30
    } else if y == 1427 {
        29
    } else if y == 1428 {
        30
    } else if y == 1429 {
        29
    } else if y == 1430 {
        29
    } else if y == 1431 {
        29
    } else if y == 1432 {
        30
    } else if y == 1433 {
        30
    } else if y == 1434 {
        30
    } else if y == 1435 {
        29
    } else if y == 1436 {
        30
    } else if y == 1437 {
        30
    } else if y == 1438 {
        30
    } else if y == 1439 {
        30
    } else if y == 1440 {
        30
    } else if y == 1441 {
        29
    } else if y == 1442 {
        30
    } else if y == 1443 {
        29
    } else if y == 1444 {
        30
    } else if y == 1445 {
        30
    } else if y == 1446 {
        30
    } else if y == 1447 {
        30
    } else if y == 1448 {
        30
    } else if y == 1449 {
        29
    } else if y == 1450 {
        29
    } else if y == 1451 {
        29
    } else if y == 1452 {
        30
    } else if y == 1453 {
        30
    } else if y == 1454 {
        30
    } else if y == 1455 {
        30
    } else if y == 1456 {
        29
    } else if y == 1457 {
        30
    } else if y == 1458 {
        29
    } else if y == 1459 {
        29
    } else if y == 1460 {
        29
    } else if y == 1461 {
        29
    } else if y == 1462 {
        29
    } else if y == 1463 {
        30
    } else if y == 1464 {
        29
    } else if y == 1465 {
        29
    } else if y == 1466 {
        30
    } else if y == 1467 {
        30
    } else if y == 1468 {
        30
    } else if y == 1469 {
        30
    } else if y == 1470 {
        29
    } else if y == 1471 {
        30
    } else if y == 1472 {
        29
    } else if y == 1473 {
        30
    } else if y == 1474 {
        29
    } else if y == 1475 {
        29
    } else if y == 1476 {
        29
    } else if y == 1477 {
        29
    } else if y == 1478 {
        29
    } else if y == 1479 {
        30
    } else if y == 1480 {
        29
    } else if y == 1481 {
        30
    } else if y == 1482 {
        30
    } else if y == 1483 {
        30
    } else if y == 1484 {
        29
    } else if y == 1485 {
        30
    } else if y == 1486 {
        29
    } else if y == 1487 {
        29
    } else if y == 1488 {
        30
    } else if y == 1489 {
        30
    } else if y == 1490 {
        30
    } else if y == 1491 {
        30
    } else if y == 1492 {
        29
    } else if y == 1493 {
        29
    } else if y == 1494 {
        30
    } else if y == 1495 {
        29
    } else if y == 1496 {
        30
    } else if y == 1497 {
        30
    } else if y == 1498 {
        30
    } else if y == 1499 {
        29
    } else if y == 1500 {
        30
    } else {
        29
    }
}

/// Length of month 5 across the table years.
pub open spec fn month_len_c5(y: int) -> int {
    if y == 1356 {
        29
    } else if y == 1357 {
        30
    } else if y == 1358 {
        29
    } else if y == 1359 {
        30
    } else if y == 1360 {
        29
    } else if y == 1361 {
        29
    } else if y == 1362 {
        29
    } else if y == 1363 {
        30
    } else if y == 1364 {
        29
    } else if y == 1365 {
        30
    } else if y == 1366 {
        29
    } else if y == 1367 {
        30
    } else if y == 1368 {
        30
    } else if y == 1369 {
        30
    } else if y == 1370 {
        29
    } else if y == 1371 {
        30
    } else if y == 1372 {
        29
    } else if y == 1373 {
        30
    } else if y == 1374 {
        29
    } else if y == 1375 {
        29
    } else if y == 1376 {
        29
    } else if y == 1377 {
        29
    } else if y == 1378 {
        30
    } else if y == 1379 {
        29
    } else if y == 1380 {
        29
    } else if y == 1381 {
        30
    } else if y == 1382 {
        30
    } else if y == 1383 {
        30
    } else if y == 1384 {
        30
    } else if y == 1385 {
        29
    } else if y == 1386 {
        29
    } else if y == 1387 {
        30
    } else if y == 1388 {
        29
    } else if y == 1389 {
        30
    } else if y == 1390 {
        30
    } else if y == 1391 {
        30
    } else if y == 1392 {
        29
    } else if y == 1393 {
        30
    } else if y == 1394 {
        29
    } else if y == 1395 {
        29
    } else if y == 1396 {
        29
    } else if y == 1397 {
        29
    } else if y == 1398 {
        30
    } else if y == 1399 {
        30
    } else if y == 1400 {
        29
    } else if y == 1401 {
        29
    } else if y == 1402 {
        30
    } else if y == 1403 {
        30
    } else if y == 1404 {
        30
    } else if y == 1405 {
        30
    } else if y == 1406 {
        29
    } else if y == 1407 {
        30
    } else if y == 1408 {
        30
    } else if y == 1409 {
        29
    } else if y == 1410 {
        30
    } else if y == 1411 {
        30
    } else if y == 1412 {
        30
    } else if y == 1413 {
        30
    } else if y == 1414 {
        29
    } else if y == 1415 {
        29
    } else if y == 1416 {
        30
    } else if y == 1417 {
        29
    } else if y == 1418 {
        29
    } else if y == 1419 {
        29
    } else if y == 1420 {
        30
    } else if y == 1421 {
        29
    } else if y == 1422 {
        29
    } else if y == 1423 {
        30
    } else if y == 1424 {
        29
    } else if y == 1425 {
        29
    } else if y == 1426 {
        29
    } else if y == 1427 {
        30
    } else if y == 1428 {
        29
    } else if y == 1429 {
        30
    } else if y == 1430 {
        29
    } else if y == 1431 {
        30
    } else if y == 1432 {
        29
    } else if y == 1433 {
        29
    } else if y == 1434 {
        29
    } else if y == 1435 {
        30
    } else if y == 1436 {
        29
    } else if y == 1437 {
        29
    } else if y == 1438 {
        30
    } else if y == 1439 {
        30
    } else if y == 1440 {
        30
    } else if y == 1441 {
        30
    } else if y == 1442 {
        29
    } else if y == 1443 {
        30
    } else if y == 1444 {
        30
    } else if y == 1445 {
        29
    } else if y == 1446 {
        29
    } else if y == 1447 {
        30
    } else if y == 1448 {
        30
    } else if y == 1449 {
        30
    } else if y == 1450 {
        29
    } else if y == 1451 {
        29
    } else if y == 1452 {
        29
    } else if y == 1453 {
        29
    } else if y == 1454 {
        29
    } else if y == 1455 {
        30
    } else if y == 1456 {
        30
    } else if y == 1457 {
        29
    } else if y == 1458 {
        30
    } else if y == 1459 {
        29
    } else if y == 1460 {
        30
    } else if y == 1461 {
        30
    } else if y == 1462 {
        30
    } else if y == 1463 {
        29
    } else if y == 1464 {
        30
    } else if y == 1465 {
        29
    } else if y == 1466 {
        29
    } else if y == 1467 {
        30
    } else if y == 1468 {
        30
    } else if y == 1469 {
        30
    } else if y == 1470 {
        30
    } else if y == 1471 {
        29
    } else if y == 1472 {
        30
    } else if y == 1473 {
        30
    } else if y == 1474 {
        30
    } else if y == 1475 {
        30
    } else if y == 1476 {
        30
    } else if y == 1477 {
        30
    } else if y == 1478 {
        30
    } else if y == 1479 {
        29
    } else if y == 1480 {
        30
    } else if y == 1481 {
        29
    } else if y == 1482 {
        30
    } else if y == 1483 {
        30
    } else if y == 1484 {
        30
    } else if y == 1485 {
        29
    } else if y == 1486 {
        30
    } else if y == 1487 {
        30
    } else if y == 1488 {
        29
    } else if y == 1489 {
        30
    } else if y == 1490 {
        30
    } else if y == 1491 {
        30
    } else if y == 1492 {
        30
    } else if y == 1493 {
        30
    } else if y == 1494 {
        29
    } else if y == 1495 {
        30
    } else if y == 1496 {
        29
    } else if y == 1497 {
        29
    } else if y == 1498 {
        29
    } else if y == 1499 {
        29
    } else if y == 1500 {
        29
    } else {
        29
    }
}

/// Length of month 6 across the table years.
pub open spec fn month_len_c6(y: int) -> int {
    if y == 1356 {
        30
    } else if y == 1357 {
        29
    } else if y == 1358 {
        30
    } else if y == 1359 {
        29
    } else if y == 1360 {
        30
    } else if y == 1361 {
        30
    } else if y == 1362 {
        30
    } else if y == 1363 {
        29
    } else if y == 1364 {
        29
    } else if y == 1365 {
        29
    } else if y == 1366 {
        30
    } else if y == 1367 {
        29
    } else if y == 1368 {
        30
    } else if y == 1369 {
        30
    } else if y == 1370 {
        30
    } else if y == 1371 {
        29
    } else if y == 1372 {
        30
    } else if y == 1373 {
        29
    } else if y == 1374 {
        30
    } else if y == 1375 {
        30
    } else if y == 1376 {
        30
    } else if y == 1377 {
        30
    } else if y == 1378 {
        29
    } else if y == 1379 {
        30
    } else if y == 1380 {
        30
    } else if y == 1381 {
        29
    } else if y == 1382 {
        29
    } else if y == 1383 {
        30
    } else if y == 1384 {
        30
    } else if y == 1385 {
        30
    } else if y == 1386 {
        29
    } else if y == 1387 {
        29
    } else if y == 1388 {
        30
    } else if y == 1389 {
        29
    } else if y == 1390 {
        30
    } else if y == 1391 {
        30
    } else if y == 1392 {
        30
    } else if y == 1393 {
        29
    } else if y == 1394 {
        30
    } else if y == 1395 {
        30
    } else if y == 1396 {
        30
    } else if y == 1397 {
        30
    } else if y == 1398 {
        29
    } else if y == 1399 {
        29
    } else if y == 1400 {
        30
    } else if y == 1401 {
        29
    } else if y == 1402 {
        29
    } else if y == 1403 {
        30
    } else if y == 1404 {
        30
    } else if y == 1405 {
        30
    } else if y == 1406 {
        30
    } else if y == 1407 {
        29
    } else if y == 1408 {
        29
    } else if y == 1409 {
        30
    } else if y == 1410 {
        29
    } else if y == 1411 {
        29
    } else if y == 1412 {
        29
    } else if y == 1413 {
        29
    } else if y == 1414 {
        30
    } else if y == 1415 {
        29
    } else if y == 1416 {
        29
    } else if y == 1417 {
        29
    } else if y == 1418 {
        30
    } else if y == 1419 {
        30
    } else if y == 1420 {
        29
    } else if y == 1421 {
        29
    } else if y == 1422 {
        29
    } else if y == 1423 {
        29
    } else if y == 1424 {
        30
    } else if y == 1425 {
        30
    } else if y == 1426 {
        30
    } else if y == 1427 {
        29
    } else if y == 1428 {
        29
    } else if y == 1429 {
        29
    } else if y == 1430 {
        30
    } else if y == 1431 {
        29
    } else if y == 1432 {
        30
    } else if y == 1433 {
        30
    } else if y == 1434 {
        30
    } else if y == 1435 {
        29
    } else if y == 1436 {
        30
    } else if y == 1437 {
        29
    } else if y == 1438 {
        29
    } else if y == 1439 {
        29
    } else if y == 1440 {
        30
    } else if y == 1441 {
        30
    } else if y == 1442 {
        30
    } else if y == 1443 {
        29
    } else if y == 1444 {
        29
    } else if y == 1445 {
        30
    } else if y == 1446 {
        30
    } else if y == 1447 {
        29
    } else if y == 1448 {
        29
    } else if y == 1449 {
        29
    } else if y == 1450 {
        30
    } else if y == 1451 {
        30
    } else if y == 1452 {
        29
    } else if y == 1453 {
        30
    } else if y == 1454 {
        30
    } else if y == 1455 {
        29
    } else if y == 1456 {
        29
    } else if y == 1457 {
        29
    } else if y == 1458 {
        29
    } else if y == 1459 {
        30
    } else if y == 1460 {
        29
    } else if y == 1461 {
        29
    } else if y == 1462 {
        30
    } else if y == 1463 {
        30
    } else if y == 1464 {
        29
    } else if y == 1465 {
        30
    } else if y == 1466 {
        29
    } else if y == 1467 {
        29
    } else if y == 1468 {
        29
    } else if y == 1469 {
        29
    } else if y == 1470 {
        30
    } else if y == 1471 {
        30
    } else if y == 1472 {
        29
    } else if y == 1473 {
        29
    } else if y == 1474 {
        30
    } else if y == 1475 {
        30
    } else if y == 1476 {
        30
    } else if y == 1477 {
        30
    } else if y == 1478 {
        29
    } else if y == 1479 {
        30
    } else if y == 1480 {
        29
    } else if y == 1481 {
        30
    } else if y == 1482 {
        30
    } else if y == 1483 {
        30
    } else if y == 1484 {
        30
    } else if y == 1485 {
        30
    } else if y == 1486 {
        29
    } else if y == 1487 {
        29
    } else if y == 1488 {
        30
    } else if y == 1489 {
        29
    } else if y == 1490 {
        29
    } else if y == 1491 {
        29
    } else if y == 1492 {
        30
    } else if y == 1493 {
        29
    } else if y == 1494 {
        30
    } else if y == 1495 {
        29
    } else if y == 1496 {
        30
    } else if y == 1497 {
        30
    } else if y == 1498 {
        30
    } else if y == 1499 {
        30
    } else if y == 1500 {
        29
    } else {
        29
    }
}

/// Length of month 7 across the table years.
pub open spec fn month_len_c7(y: int) -> int {
    if y == 1356 {
        29
    } else if y == 1357 {
        29
    } else if y == 1358 {
        29
    } else if y == 1359 {
        30
    } else if y == 1360 {
        29
    } else if y == 1361 {
        30
    } else if y == 1362 {
        30
    } else if y == 1363 {
        30
    } else if y == 1364 {
        30
    } else if y == 1365 {
        29
    } else if y == 1366 {
        29
    } else if y == 1367 {
        30
    } else if y == 1368 {
        29
    } else if y == 1369 {
        29
    } else if y == 1370 {
        29
    } else if y == 1371 {
        30
    } else if y == 1372 {
        29
    } else if y == 1373 {
        30
    } else if y == 1374 {
        29
    } else if y == 1375 {
        30
    } else if y == 1376 {
        30
    } else if y == 1377 {
        30
    } else if y == 1378 {
        30
    } else if y == 1379 {
        29
    } else if y == 1380 {
        29
    } else if y == 1381 {
        30
    } else if y == 1382 {
        30
    } else if y == 1383 {
        29
    } else if y == 1384 {
        29
    } else if y == 1385 {
        30
    } else if y == 1386 {
        30
    } else if y == 1387 {
        30
    } else if y == 1388 {
        29
    } else if y == 1389 {
        30
    } else if y == 1390 {
        29
    } else if y == 1391 {
        29
    } else if y == 1392 {
        29
    } else if y == 1393 {
        30
    } else if y == 1394 {
        29
    } else if y == 1395 {
        29
    } else if y == 1396 {
        30
    } else if y == 1397 {
        30
    } else if y == 1398 {
        30
    } else if y == 1399 {
        30
    } else if y == 1400 {
        29
    } else if y == 1401 {
        30
    } else if y == 1402 {
        29
    } else if y == 1403 {
        29
    } else if y == 1404 {
        29
    } else if y == 1405 {
        30
    } else if y == 1406 {
        30
    } else if y == 1407 {
        30
    } else if y == 1408 {
        29
    } else if y == 1409 {
        29
    } else if y == 1410 {
        30
    } else if y == 1411 {
        30
    } else if y == 1412 {
        30
    } else if y == 1413 {
        30
    } else if y == 1414 {
        29
    } else if y == 1415 {
        30
    } else if y == 1416 {
        29
    } else if y == 1417 {
        30
    } else if y == 1418 {
        29
    } else if y == 1419 {
        29
    } else if y == 1420 {
        30
    } else if y == 1421 {
        30
    } else if y == 1422 {
        29
    } else if y == 1423 {
        29
    } else if y == 1424 {
        29
    } else if y == 1425 {
        29
    } else if y == 1426 {
        30
    } else if y == 1427 {
        30
    } else if y == 1428 {
        30
    } else if y == 1429 {
        29
    } else if y == 1430 {
        29
    } else if y == 1431 {
        30
    } else if y == 1432 {
        29
    } else if y == 1433 {
        30
    } else if y == 1434 {
        30
    } else if y == 1435 {
        30
    } else if y == 1436 {
        29
    } else if y == 1437 {
        30
    } else if y == 1438 {
        29
    } else if y == 1439 {
        30
    } else if y == 1440 {
        29
    } else if y == 1441 {
        29
    } else if y == 1442 {
        29
    } else if y == 1443 {
        30
    } else if y == 1444 {
        29
    } else if y == 1445 {
        29
    } else if y == 1446 {
        30
    } else if y == 1447 {
        30
    } else if y == 1448 {
        30
    } else if y == 1449 {
        30
    } else if y == 1450 {
        29
    } else if y == 1451 {
        29
    } else if y == 1452 {
        30
    } else if y == 1453 {
        29
    } else if y == 1454 {
        30
    } else if y == 1455 {
        30
    } else if y == 1456 {
        30
    } else if y == 1457 {
        30
    } else if y == 1458 {
        29
    } else if y == 1459 {
        29
    } else if y == 1460 {
        30
    } else if y == 1461 {
        30
    } else if y == 1462 {
        29
    } else if y == 1463 {
        29
    } else if y == 1464 {
        29
    } else if y == 1465 {
        29
    } else if y == 1466 {
        29
    } else if y == 1467 {
        29
    } else if y == 1468 {
        30
    } else if y == 1469 {
        30
    } else if y == 1470 {
        29
    } else if y == 1471 {
        29
    } else if y == 1472 {
        30
    } else if y == 1473 {
        29
    } else if y == 1474 {
        29
    } else if y == 1475 {
        30
    } else if y == 1476 {
        30
    } else if y == 1477 {
        30
    } else if y == 1478 {
        30
    } else if y == 1479 {
        29
    } else if y == 1480 {
        30
    } else if y == 1481 {
        29
    } else if y == 1482 {
        29
    } else if y == 1483 {
        29
    } else if y == 1484 {
        30
    } else if y == 1485 {
        30
    } else if y == 1486 {
        30
    } else if y == 1487 {
        29
    } else if y == 1488 {
        29
    } else if y == 1489 {
        30
    } else if y == 1490 {
        30
    } else if y == 1491 {
        30
    } else if y == 1492 {
        29
    } else if y == 1493 {
        29
    } else if y == 1494 {
        29
    } else if y == 1495 {
        29
    } else if y == 1496 {
        29
    } else if y == 1497 {
        29
    } else if y == 1498 {
        30
    } else if y == 1499 {
        30
    } else if y == 1500 {
        30
    } else {
        29
    }
}

/// Length of month 8 across the table years.
pub open spec fn month_len_c8(y: int) -> int {
    if y == 1356 {
        30
    } else if y == 1357 {
        30
    } else if y == 1358 {
        29
    } else if y == 1359 {
        29
    } else if y == 1360 {
        30
    } else if y == 1361 {
        29
    } else if y == 1362 {
        29
    } else if y == 1363 {
        29
    } else if y == 1364 {
        29
    } else if y == 1365 {
        30
    } else if y == 1366 {
        29
    } else if y == 1367 {
        29
    } else if y == 1368 {
        29
    } else if y == 1369 {
        30
    } else if y == 1370 {
        30
    } else if y == 1371 {
        29
    } else if y == 1372 {
        29
    } else if y == 1373 {
        29
    } else if y == 1374 {
        30
    } else if y == 1375 {
        29
    } else if y == 1376 {
        30
    } else if y == 1377 {
        30
    } else if y == 1378 {
        30
    } else if y == 1379 {
        30
    } else if y == 1380 {
        30
    } else if y == 1381 {
        29
    } else if y == 1382 {
        30
    } else if y == 1383 {
        30
    } else if y == 1384 {
        30
    } else if y == 1385 {
        29
    } else if y == 1386 {
        30
    } else if y == 1387 {
        29
    } else if y == 1388 {
        30
    } else if y == 1389 {
        30
    } else if y == 1390 {
        30
    } else if y == 1391 {
        30
    } else if y == 1392 {
        30
    } else if y == 1393 {
        29
    } else if y == 1394 {
        30
    } else if y == 1395 {
        29
    } else if y == 1396 {
        29
    } else if y == 1397 {
        30
    } else if y == 1398 {
        30
    } else if y == 1399 {
        30
    } else if y == 1400 {
        30
    } else if y == 1401 {
        29
    } else if y == 1402 {
        30
    } else if y == 1403 {
        29
    } else if y == 1404 {
        30
    } else if y == 1405 {
        29
    } else if y == 1406 {
        29
    } else if y == 1407 {
        29
    } else if y == 1408 {
        30
    } else if y == 1409 {
        29
    } else if y == 1410 {
        29
    } else if y == 1411 {
        30
    } else if y == 1412 {
        30
    } else if y == 1413 {
        30
    } else if y == 1414 {
        30
    } else if y == 1415 {
        29
    } else if y == 1416 {
        30
    } else if y == 1417 {
        29
    } else if y == 1418 {
        30
    } else if y == 1419 {
        30
    } else if y == 1420 {
        30
    } else if y == 1421 {
        30
    } else if y == 1422 {
        30
    } else if y == 1423 {
        30
    } else if y == 1424 {
        29
    } else if y == 1425 {
        30
    } else if y == 1426 {
        29
    } else if y == 1427 {
        30
    } else if y == 1428 {
        30
    } else if y == 1429 {
        30
    } else if y == 1430 {
        30
    } else if y == 1431 {
        29
    } else if y == 1432 {
        30
    } else if y == 1433 {
        29
    } else if y == 1434 {
        29
    } else if y == 1435 {
        29
    } else if y == 1436 {
        30
    } else if y == 1437 {
        29
    } else if y == 1438 {
        30
    } else if y == 1439 {
        29
    } else if y == 1440 {
        30
    } else if y == 1441 {
        30
    } else if y == 1442 {
        30
    } else if y == 1443 {
        29
    } else if y == 1444 {
        30
    } else if y == 1445 {
        29
    } else if y == 1446 {
        29
    } else if y == 1447 {
        29
    } else if y == 1448 {
        30
    } else if y == 1449 {
        30
    } else if y == 1450 {
        30
    } else if y == 1451 {
        29
    } else if y == 1452 {
        29
    } else if y == 1453 {
        30
    } else if y == 1454 {
        29
    } else if y == 1455 {
        29
    } else if y == 1456 {
        29
    } else if y == 1457 {
        29
    } else if y == 1458 {
        30
    } else if y == 1459 {
        29
    } else if y == 1460 {
        29
    } else if y == 1461 {
        29
    } else if y == 1462 {
        30
    } else if y == 1463 {
        30
    } else if y == 1464 {
        30
    } else if y == 1465 {
        29
    } else if y == 1466 {
        30
    } else if y == 1467 {
        30
    } else if y == 1468 {
        29
    } else if y == 1469 {
        30
    } else if y == 1470 {
        30
    } else if y == 1471 {
        30
    } else if y == 1472 {
        29
    } else if y == 1473 {
        30
    } else if y == 1474 {
        29
    } else if y == 1475 {
        29
    } else if y == 1476 {
        29
    } else if y == 1477 {
        30
    } else if y == 1478 {
        30
    } else if y == 1479 {
        30
    } else if y == 1480 {
        29
    } else if y == 1481 {
        30
    } else if y == 1482 {
        30
    } else if y == 1483 {
        30
    } else if y == 1484 {
        29
    } else if y == 1485 {
        29
    } else if y == 1486 {
        29
    } else if y == 1487 {
        30
    } else if y == 1488 {
        29
    } else if y == 1489 {
        29
    } else if y == 1490 {
        30
    } else if y == 1491 {
        30
    } else if y == 1492 {
        30
    } else if y == 1493 {
        30
    } else if y == 1494 {
        29
    } else if y == 1495 {
        30
    } else if y == 1496 {
        29
    } else if y == 1497 {
        30
    } else if y == 1498 {
        29
    } else if y == 1499 {
        29
    } else if y == 1500 {
        29
    } else {
        29
    }
}

/// Length of month 9 across the table years.
pub open spec fn month_len_c9(y: int) -> int {
    if y == 1356 {
        29
    } else if y == 1357 {
        29
    } else if y == 1358 {
        30
    } else if y == 1359 {
        29
    } else if y == 1360 {
        29
    } else if y == 1361 {
        29
    } else if y == 1362 {
        30
    } else if y == 1363 {
        30
    } else if y == 1364 {
        30
    } else if y == 1365 {
        29
    } else if y == 1366 {
        30
    } else if y == 1367 {
        29
    } else if y == 1368 {
        30
    } else if y == 1369 {
        29
    } else if y == 1370 {
        29
    } else if y == 1371 {
        30
    } else if y == 1372 {
        30
    } else if y == 1373 {
        29
    } else if y == 1374 {
        29
    } else if y == 1375 {
        30
    } else if y == 1376 {
        29
    } else if y == 1377 {
        29
    } else if y == 1378 {
        29
    } else if y == 1379 {
        30
    } else if y == 1380 {
        29
    } else if y == 1381 {
        30
    } else if y == 1382 {
        29
    } else if y == 1383 {
        30
    } else if y == 1384 {
        30
    } else if y == 1385 {
        30
    } else if y == 1386 {
        29
    } else if y == 1387 {
        30
    } else if y == 1388 {
        29
    } else if y == 1389 {
        29
    } else if y == 1390 {
        29
    } else if y == 1391 {
        30
    } else if y == 1392 {
        30
    } else if y == 1393 {
        30
    } else if y == 1394 {
        29
    } else if y == 1395 {
        30
    } else if y == 1396 {
        29
    } else if y == 1397 {
        29
    } else if y == 1398 {
        29
    } else if y == 1399 {
        29
    } else if y == 1400 {
        29
    } else if y == 1401 {
        29
    } else if y == 1402 {
        29
    } else if y == 1403 {
        30
    } else if y == 1404 {
        29
    } else if y == 1405 {
        30
    } else if y == 1406 {
        30
    } else if y == 1407 {
        30
    } else if y == 1408 {
        29
    } else if y == 1409 {
        30
    } else if y == 1410 {
        29
    } else if y == 1411 {
        29
    } else if y == 1412 {
        30
    } else if y == 1413 {
        30
    } else if y == 1414 {
        30
    } else if y == 1415 {
        30
    } else if y == 1416 {
        29
    } else if y == 1417 {
        30
    } else if y == 1418 {
        29
    } else if y == 1419 {
        30
    } else if y == 1420 {
        30
    } else if y == 1421 {
        30
    } else if y == 1422 {
        30
    } else if y == 1423 {
        29
    } else if y == 1424 {
        30
    } else if y == 1425 {
        30
    } else if y == 1426 {
        30
    } else if y == 1427 {
        29
    } else if y == 1428 {
        30
    } else if y == 1429 {
        30
    } else if y == 1430 {
        29
    } else if y == 1431 {
        30
    } else if y == 1432 {
        29
    } else if y == 1433 {
        30
    } else if y == 1434 {
        30
    } else if y == 1435 {
        30
    } else if y == 1436 {
        29
    } else if y == 1437 {
        30
    } else if y == 1438 {
        29
    } else if y == 1439 {
        30
    } else if y == 1440 {
        29
    } else if y == 1441 {
        30
    } else if y == 1442 {
        30
    } else if y == 1443 {
        30
    } else if y == 1444 {
        29
    } else if y == 1445 {
        30
    } else if y == 1446 {
        29
    } else if y == 1447 {
        30
    } else if y == 1448 {
        29
    } else if y == 1449 {
        29
    } else if y == 1450 {
        29
    } else if y == 1451 {
        30
    } else if y == 1452 {
        29
    } else if y == 1453 {
        29
    } else if y == 1454 {
        30
    } else if y == 1455 {
        30
    } else if y == 1456 {
        30
    } else if y == 1457 {
        30
    } else if y == 1458 {
        29
    } else if y == 1459 {
        30
    } else if y == 1460 {
        29
    } else if y == 1461 {
        30
    } else if y == 1462 {
        29
    } else if y == 1463 {
        30
    } else if y == 1464 {
        30
    } else if y == 1465 {
        30
    } else if y == 1466 {
        29
    } else if y == 1467 {
        29
    } else if y == 1468 {
        30
    } else if y == 1469 {
        29
    } else if y == 1470 {
        30
    } else if y == 1471 {
        30
    } else if y == 1472 {
        30
    } else if y == 1473 {
        29
    } else if y == 1474 {
        30
    } else if y == 1475 {
        29
    } else if y == 1476 {
        30
    } else if y == 1477 {
        29
    } else if y == 1478 {
        29
    } else if y == 1479 {
        29
    } else if y == 1480 {
        30
    } else if y == 1481 {
        29
    } else if y == 1482 {
        29
    } else if y == 1483 {
        30
    } else if y == 1484 {
        30
    } else if y == 1485 {
        30
    } else if y == 1486 {
        30
    } else if y == 1487 {
        29
    } else if y == 1488 {
        30
    } else if y == 1489 {
        29
    } else if y == 1490 {
        29
    } else if y == 1491 {
        29
    } else if y == 1492 {
        29
    } else if y == 1493 {
        29
    } else if y == 1494 {
        29
    } else if y == 1495 {
        29
    } else if y == 1496 {
        30
    } else if y == 1497 {
        29
    } else if y == 1498 {
        30
    } else if y == 1499 {
        30
    } else if y == 1500 {
        30
    } else {
        29
    }
}

/// Length of month 10 across the table years.
pub open spec fn month_len_c10(y: int) -> int {
    if y == 1356 {
        30
    } else if y == 1357 {
        30
    } else if y == 1358 {
        29
    } else if y == 1359 {
        29
    } else if y == 1360 {
        29
    } else if y == 1361 {
        30
    } else if y == 1362 {
        29
    } else if y == 1363 {
        29
    } else if y == 1364 {
        29
    } else if y == 1365 {
        30
    } else if y == 1366 {
        29
    } else if y == 1367 {
        30
    } else if y == 1368 {
        29
    } else if y == 1369 {
        30
    } else if y == 1370 {
        30
    } else if y == 1371 {
        29
    } else if y == 1372 {
        29
    } else if y == 1373 {
        30
    } else if y == 1374 {
        29
    } else if y == 1375 {
        29
    } else if y == 1376 {
        30
    } else if y == 1377 {
        30
    } else if y == 1378 {
        30
    } else if y == 1379 {
        29
    } else if y == 1380 {
        30
    } else if y == 1381 {
        29
    } else if y == 1382 {
        30
    } else if y == 1383 {
        29
    } else if y == 1384 {
        30
    } else if y == 1385 {
        30
    } else if y == 1386 {
        30
    } else if y == 1387 {
        29
    } else if y == 1388 {
        30
    } else if y == 1389 {
        29
    } else if y == 1390 {
        30
    } else if y == 1391 {
        29
    } else if y == 1392 {
        29
    } else if y == 1393 {
        29
    } else if y == 1394 {
        30
    } else if y == 1395 {
        29
    } else if y == 1396 {
        30
    } else if y == 1397 {
        29
    } else if y == 1398 {
        30
    } else if y == 1399 {
        30
    } else if y == 1400 {
        30
    } else if y == 1401 {
        30
    } else if y == 1402 {
        29
    } else if y == 1403 {
        29
    } else if y == 1404 {
        30
    } else if y == 1405 {
        29
    } else if y == 1406 {
        29
    } else if y == 1407 {
        29
    } else if y == 1408 {
        29
    } else if y == 1409 {
        29
    } else if y == 1410 {
        30
    } else if y == 1411 {
        29
    } else if y == 1412 {
        29
    } else if y == 1413 {
        29
    } else if y == 1414 {
        29
    } else if y == 1415 {
        29
    } else if y == 1416 {
        30
    } else if y == 1417 {
        29
    } else if y == 1418 {
        30
    } else if y == 1419 {
        30
    } else if y == 1420 {
        30
    } else if y == 1421 {
        30
    } else if y == 1422 {
        30
    } else if y == 1423 {
        30
    } else if y == 1424 {
        29
    } else if y == 1425 {
        29
    } else if y == 1426 {
        30
    } else if y == 1427 {
        30
    } else if y == 1428 {
        29
    } else if y == 1429 {
        29
    } else if y == 1430 {
        30
    } else if y == 1431 {
        29
    } else if y == 1432 {
        30
    } else if y == 1433 {
        29
    } else if y == 1434 {
        30
    } else if y == 1435 {
        30
    } else if y == 1436 {
        30
    } else if y == 1437 {
        29
    } else if y == 1438 {
        29
    } else if y == 1439 {
        29
    } else if y == 1440 {
        30
    } else if y == 1441 {
        29
    } else if y == 1442 {
        29
    } else if y == 1443 {
        29
    } else if y == 1444 {
        30
    } else if y == 1445 {
        29
    } else if y == 1446 {
        30
    } else if y == 1447 {
        29
    } else if y == 1448 {
        30
    } else if y == 1449 {
        30
    } else if y == 1450 {
        30
    } else if y == 1451 {
        30
    } else if y == 1452 {
        30
    } else if y == 1453 {
        29
    } else if y == 1454 {
        29
    } else if y == 1455 {
        30
    } else if y == 1456 {
        30
    } else if y == 1457 {
        30
    } else if y == 1458 {
        30
    } else if y == 1459 {
        29
    } else if y == 1460 {
        30
    } else if y == 1461 {
        30
    } else if y == 1462 {
        30
    } else if y == 1463 {
        30
    } else if y == 1464 {
        30
    } else if y == 1465 {
        30
    } else if y == 1466 {
        30
    } else if y == 1467 {
        30
    } else if y == 1468 {
        29
    } else if y == 1469 {
        30
    } else if y == 1470 {
        29
    } else if y == 1471 {
        29
    } else if y == 1472 {
        30
    } else if y == 1473 {
        30
    } else if y == 1474 {
        29
    } else if y == 1475 {
        30
    } else if y == 1476 {
        29
    } else if y == 1477 {
        30
    } else if y == 1478 {
        30
    } else if y == 1479 {
        30
    } else if y == 1480 {
        29
    } else if y == 1481 {
        30
    } else if y == 1482 {
        29
    } else if y == 1483 {
        29
    } else if y == 1484 {
        29
    } else if y == 1485 {
        30
    } else if y == 1486 {
        30
    } else if y == 1487 {
        30
    } else if y == 1488 {
        29
    } else if y == 1489 {
        30
    } else if y == 1490 {
        29
    } else if y == 1491 {
        30
    } else if y == 1492 {
        30
    } else if y == 1493 {
        30
    } else if y == 1494 {
        30
    } else if y == 1495 {
        29
    } else if y == 1496 {
        29
    } else if y == 1497 {
        30
    } else if y == 1498 {
        29
    } else if y == 1499 {
        29
    } else if y == 1500 {
        29
    } else {
        29
    }
}

/// Length of month 11 across the table years.
pub open spec fn month_len_c11(y: int) -> int {
    if y == 1356 {
        30
    } else if y == 1357 {
        30
    } else if y == 1358 {
        30
    } else if y == 1359 {
        30
    } else if y == 1360 {
        30
    } else if y == 1361 {
        29
    } else if y == 1362 {
        30
    } else if y == 1363 {
        30
    } else if y == 1364 {
        30
    } else if y == 1365 {
        29
    } else if y == 1366 {
        30
    } else if y == 1367 {
        29
    } else if y == 1368 {
        30
    } else if y == 1369 {
        30
    } else if y == 1370 {
        30
    } else if y == 1371 {
        30
    } else if y == 1372 {
        30
    } else if y == 1373 {
        29
    } else if y == 1374 {
        30
    } else if y == 1375 {
        30
    } else if y == 1376 {
        29
    } else if y == 1377 {
        30
    } else if y == 1378 {
        30
    } else if y == 1379 {
        30
    } else if y == 1380 {
        29
    } else if y == 1381 {
        29
    } else if y == 1382 {
        29
    } else if y == 1383 {
        30
    } else if y == 1384 {
        29
    } else if y == 1385 {
        30
    } else if y == 1386 {
        30
    } else if y == 1387 {
        30
    } else if y == 1388 {
        29
    } else if y == 1389 {
        30
    } else if y == 1390 {
        29
    } else if y == 1391 {
        30
    } else if y == 1392 {
        30
    } else if y == 1393 {
        30
    } else if y == 1394 {
        29
    } else if y == 1395 {
        29
    } else if y == 1396 {
        29
    } else if y == 1397 {
        29
    } else if y == 1398 {
        29
    } else if y == 1399 {
        29
    } else if y == 1400 {
        29
    } else if y == 1401 {
        29
    } else if y == 1402 {
        30
    } else if y == 1403 {
        29
    } else if y == 1404 {
        29
    } else if y == 1405 {
        29
    } else if y == 1406 {
        30
    } else if y == 1407 {
        30
    } else if y == 1408 {
        30
    } else if y == 1409 {
        29
    } else if y == 1410 {
        29
    } else if y == 1411 {
        30
    } else if y == 1412 {
        29
    } else if y == 1413 {
        30
    } else if y == 1414 {
        30
    } else if y == 1415 {
        30
    } else if y == 1416 {
        29
    } else if y == 1417 {
        30
    } else if y == 1418 {
        29
    } else if y == 1419 {
        29
    } else if y == 1420 {
        29
    } else if y == 1421 {
        29
    } else if y == 1422 {
        29
    } else if y == 1423 {
        29
    } else if y == 1424 {
        30
    } else if y == 1425 {
        30
    } else if y == 1426 {
        29
    } else if y == 1427 {
        30
    } else if y == 1428 {
        30
    } else if y == 1429 {
        30
    } else if y == 1430 {
        29
    } else if y == 1431 {
        29
    } else if y == 1432 {
        29
    } else if y == 1433 {
        30
    } else if y == 1434 {
        29
    } else if y == 1435 {
        29
    } else if y == 1436 {
        29
    } else if y == 1437 {
        29
    } else if y == 1438 {
        30
    } else if y == 1439 {
        29
    } else if y == 1440 {
        29
    } else if y == 1441 {
        30
    } else if y == 1442 {
        30
    } else if y == 1443 {
        30
    } else if y == 1444 {
        29
    } else if y == 1445 {
        29
    } else if y == 1446 {
        29
    } else if y == 1447 {
        30
    } else if y == 1448 {
        29
    } else if y == 1449 {
        30
    } else if y == 1450 {
        30
    } else if y == 1451 {
        29
    } else if y == 1452 {
        29
    } else if y == 1453 {
        30
    } else if y == 1454 {
        30
    } else if y == 1455 {
        29
    } else if y == 1456 {
        30
    } else if y == 1457 {
        30
    } else if y == 1458 {
        30
    } else if y == 1459 {
        30
    } else if y == 1460 {
        29
    } else if y == 1461 {
        29
    } else if y == 1462 {
        30
    } else if y == 1463 {
        29
    } else if y == 1464 {
        29
    } else if y == 1465 {
        29
    } else if y == 1466 {
        30
    } else if y == 1467 {
        29
    } else if y == 1468 {
        30
    } else if y == 1469 {
        29
    } else if y == 1470 {
        30
    } else if y == 1471 {
        30
    } else if y == 1472 {
        29
    } else if y == 1473 {
        29
    } else if y == 1474 {
        30
    } else if y == 1475 {
        29
    } else if y == 1476 {
        30
    } else if y == 1477 {
        29
    } else if y == 1478 {
        30
    } else if y == 1479 {
        30
    } else if y == 1480 {
        30
    } else if y == 1481 {
        29
    } else if y == 1482 {
        30
    } else if y == 1483 {
        29
    } else if y == 1484 {
        30
    } else if y == 1485 {
        29
    } else if y == 1486 {
        29
    } else if y == 1487 {
        29
    } else if y == 1488 {
        30
    } else if y == 1489 {
        29
    } else if y == 1490 {
        30
    } else if y == 1491 {
        29
    } else if y == 1492 {
        30
    } else if y == 1493 {
        30
    } else if y == 1494 {
        30
    } else if y == 1495 {
        30
    } else if y == 1496 {
        29
    } else if y == 1497 {
        29
    } else if y == 1498 {
        30
    } else if y == 1499 {
        30
    } else if y == 1500 {
        30
    } else {
        29
    }
}

/// Length of month 12 across the table years.
pub open spec fn month_len_c12(y: int) -> int {
    if y == 1356 {
        30
    } else if y == 1357 {
        30
    } else if y == 1358 {
        30
    } else if y == 1359 {
        30
    } else if y == 1360 {
        29
    } else if y == 1361 {
        30
    } else if y == 1362 {
        29
    } else if y == 1363 {
        30
    } else if y == 1364 {
        30
    } else if y == 1365 {
        30
    } else if y == 1366 {
        29
    } else if y == 1367 {
        30
    } else if y == 1368 {
        29
    } else if y == 1369 {
        29
    } else if y == 1370 {
        30
    } else if y == 1371 {
        30
    } else if y == 1372 {
        30
    } else if y == 1373 {
        30
    } else if y == 1374 {
        29
    } else if y == 1375 {
        29
    } else if y == 1376 {
        30
    } else if y == 1377 {
        29
    } else if y == 1378 {
        30
    } else if y == 1379 {
        30
    } else if y == 1380 {
        30
    } else if y == 1381 {
        30
    } else if y == 1382 {
        29
    } else if y == 1383 {
        29
    } else if y == 1384 {
        30
    } else if y == 1385 {
        29
    } else if y == 1386 {
        29
    } else if y == 1387 {
        29
    } else if y == 1388 {
        29
    } else if y == 1389 {
        29
    } else if y == 1390 {
        30
    } else if y == 1391 {
        29
    } else if y == 1392 {
        30
    } else if y == 1393 {
        30
    } else if y == 1394 {
        30
    } else if y == 1395 {
        30
    } else if y == 1396 {
        29
    } else if y == 1397 {
        30
    } else if y == 1398 {
        29
    } else if y == 1399 {
        30
    } else if y == 1400 {
        30
    } else if y == 1401 {
        30
    } else if y == 1402 {
        29
    } else if y == 1403 {
        30
    } else if y == 1404 {
        29
    } else if y == 1405 {
        30
    } else if y == 1406 {
        30
    } else if y == 1407 {
        30
    } else if y == 1408 {
        30
    } else if y == 1409 {
        30
    } else if y == 1410 {
        29
    } else if y == 1411 {
        29
    } else if y == 1412 {
        30
    } else if y == 1413 {
        29
    } else if y == 1414 {
        30
    } else if y == 1415 {
        30
    } else if y == 1416 {
        30
    } else if y == 1417 {
        29
    } else if y == 1418 {
        30
    } else if y == 1419 {
        29
    } else if y == 1420 {
        30
    } else if y == 1421 {
        30
    } else if y == 1422 {
        30
    } else if y == 1423 {
        30
    } else if y == 1424 {
        29
    } else if y == 1425 {
        29
    } else if y == 1426 {
        30
    } else if y == 1427 {
        29
    } else if y == 1428 {
        30
    } else if y == 1429 {
        30
    } else if y == 1430 {
        30
    } else if y == 1431 {
        30
    } else if y == 1432 {
        29
    } else if y == 1433 {
        29
    } else if y == 1434 {
        29
    } else if y == 1435 {
        30
    } else if y == 1436 {
        30
    } else if y == 1437 {
        30
    } else if y == 1438 {
        29
    } else if y == 1439 {
        30
    } else if y == 1440 {
        29
    } else if y == 1441 {
        29
    } else if y == 1442 {
        29
    } else if y == 1443 {
        30
    } else if y == 1444 {
        30
    } else if y == 1445 {
        30
    } else if y == 1446 {
        29
    } else if y == 1447 {
        29
    } else if y == 1448 {
        30
    } else if y == 1449 {
        29
    } else if y == 1450 {
        29
    } else if y == 1451 {
        30
    } else if y == 1452 {
        30
    } else if y == 1453 {
        29
    } else if y == 1454 {
        29
    } else if y == 1455 {
        30
    } else if y == 1456 {
        29
    } else if y == 1457 {
        30
    } else if y == 1458 {
        30
    } else if y == 1459 {
        30
    } else if y == 1460 {
        30
    } else if y == 1461 {
        29
    } else if y == 1462 {
        29
    } else if y == 1463 {
        30
    } else if y == 1464 {
        30
    } else if y == 1465 {
        30
    } else if y == 1466 {
        29
    } else if y == 1467 {
        30
    } else if y == 1468 {
        29
    } else if y == 1469 {
        30
    } else if y == 1470 {
        29
    } else if y == 1471 {
        30
    } else if y == 1472 {
        30
    } else if y == 1473 {
        30
    } else if y == 1474 {
        29
    } else if y == 1475 {
        29
    } else if y == 1476 {
        29
    } else if y == 1477 {
        30
    } else if y == 1478 {
        29
    } else if y == 1479 {
        29
    } else if y == 1480 {
        29
    } else if y == 1481 {
        29
    } else if y == 1482 {
        29
    } else if y == 1483 {
        30
    } else if y == 1484 {
        29
    } else if y == 1485 {
        30
    } else if y == 1486 {
        30
    } else if y == 1487 {
        30
    } else if y == 1488 {
        29
    } else if y == 1489 {
        30
    } else if y == 1490 {
        29
    } else if y == 1491 {
        30
    } else if y == 1492 {
        29
    } else if y == 1493 {
        30
    } else if y == 1494 {
        30
    } else if y == 1495 {
        30
    } else if y == 1496 {
        30
    } else if y == 1497 {
        30
    } else if y == 1498 {
        29
    } else if y == 1499 {
        30
    } else if y == 1500 {
        30
    } else {
        29
    }
}

/// Length in days of month `m` of Hijri year `y`.
pub open spec fn month_length(y: int, m: int) -> int {
    if m == 1 {
        month_len_c1(y)
    } else if m == 2 {
        month_len_c2(y)
    } else if m == 3 {
        month_len_c3(y)
    } else if m == 4 {
        month_len_c4(y)
    } else if m == 5 {
        month_len_c5(y)
    } else if m == 6 {
        month_len_c6(y)
    } else if m == 7 {
        month_len_c7(y)
    } else if m == 8 {
        month_len_c8(y)
    } else if m == 9 {
        month_len_c9(y)
    } else if m == 10 {
        month_len_c10(y)
    } else if m == 11 {
        month_len_c11(y)
    } else {
        month_len_c12(y)
    }
}

/// Position of month `m` of year `y` in the table, counted from 0 for
/// 1356-01.
pub open spec fn month_index(y: int, m: int) -> int {
    (y - 1356) * 12 + (m - 1)
}

/// Length of the month at table position `i`.
pub open spec fn month_length_at(i: int) -> int {
    month_length(1356 + i / 12, 1 + i % 12)
}

/// Day number of the first day of the month at table position `i`: the sum
/// of the lengths of all earlier months.
pub open spec fn month_start(i: int) -> int
    decreases i,
{
    if i <= 0 {
        0
    } else {
        month_start(i - 1) + month_length_at(i - 1)
    }
}

/// Every month is 29 or 30 days long.
pub proof fn lemma_month_length_range(y: int, m: int)
    ensures
        29 <= month_length(y, m) <= 30,
{
    lemma_month_len_c1_range(y);
    lemma_month_len_c2_range(y);
    lemma_month_len_c3_range(y);
    lemma_month_len_c4_range(y);
    lemma_month_len_c5_range(y);
    lemma_month_len_c6_range(y);
    lemma_month_len_c7_range(y);
    lemma_month_len_c8_range(y);
    lemma_month_len_c9_range(y);
    lemma_month_len_c10_range(y);
    lemma_month_len_c11_range(y);
    lemma_month_len_c12_range(y);
}

/// Month starts grow by 29 to 30 days per month, so they are strictly
/// increasing and bounded by 29 and 30 days per elapsed month.
pub proof fn lemma_month_start_monotone(i: int, j: int)
    requires
        0 <= i <= j,
    ensures
        month_start(i) + 29 * (j - i) <= month_start(j),
        month_start(j) <= month_start(i) + 30 * (j - i),
    decreases j - i,
{
    if i < j {
        lemma_month_start_monotone(i, j - 1);
        lemma_month_length_range(1356 + (j - 1) / 12, 1 + (j - 1) % 12);
    }
}

/// A valid (year, month) pair and its table position determine each other.
pub proof fn lemma_month_index_bijective(y: int, m: int)
    requires
        1356 <= y <= 1500,
        1 <= m <= 12,
    ensures
        0 <= month_index(y, m) < 1740,
        1356 + month_index(y, m) / 12 == y,
        1 + month_index(y, m) % 12 == m,
        month_length_at(month_index(y, m)) == month_length(y, m),
{
    let i = month_index(y, m);
    vstd::arithmetic::div_mod::lemma_fundamental_div_mod_converse(i, 12, y - 1356, m - 1);
}

/// No table year is shorter than 354 days: at least six of its months are
/// 30 days long.
#[verifier::rlimit(100)]
proof fn lemma_year_at_least(y: int)
    requires
        1356 <= y <= 1500,
    ensures
        month_len_c1(y) + month_len_c2(y) + month_len_c3(y) + month_len_c4(y) + month_len_c5(y)
            + month_len_c6(y) + month_len_c7(y) + month_len_c8(y) + month_len_c9(y)
            + month_len_c10(y) + month_len_c11(y) + month_len_c12(y) >= 354,
{
}

/// Summed lengths of the first `j` months of year `y`.
pub open spec fn year_prefix_sum(y: int, j: int) -> int
    decreases j,
{
    if j <= 0 {
        0
    } else {
        year_prefix_sum(y, j - 1) + month_length(y, j)
    }
}

/// Within one table year, month starts advance by that year's prefix sums.
proof fn lemma_chunk_prefix(k: int, j: int)
    requires
        0 <= k < 145,
        0 <= j <= 12,
    ensures
        month_start(12 * k + j) == month_start(12 * k) + year_prefix_sum(1356 + k, j),
    decreases j,
{
    if j > 0 {
        lemma_chunk_prefix(k, j - 1);
        vstd::arithmetic::div_mod::lemma_fundamental_div_mod_converse(
            12 * k + (j - 1),
            12,
            k,
            j - 1,
        );
        assert(month_start(12 * k + j) == month_start(12 * k + (j - 1)) + month_length_at(
            12 * k + (j - 1),
        ));
    }
}

/// One table year advances the day-number axis by at least 354 days.
proof fn lemma_year_chunk(k: int)
    requires
        0 <= k < 145,
    ensures
        month_start(12 * k + 12) >= month_start(12 * k) + 354,
{
    let y = 1356 + k;
    lemma_chunk_prefix(k, 12);
    lemma_year_at_least(y);
    reveal_with_fuel(year_prefix_sum, 13);
    assert(year_prefix_sum(y, 12) == month_len_c1(y) + month_len_c2(y) + month_len_c3(y)
        + month_len_c4(y) + month_len_c5(y) + month_len_c6(y) + month_len_c7(y) + month_len_c8(y)
        + month_len_c9(y) + month_len_c10(y) + month_len_c11(y) + month_len_c12(y));
}

/// The first `k` table years cover at least 354 days each.
proof fn lemma_start_at_least(k: int)
    requires
        0 <= k <= 145,
    ensures
        month_start(12 * k) >= 354 * k,
    decreases k,
{
    if k > 0 {
        lemma_start_at_least(k - 1);
        lemma_year_chunk(k - 1);
    }
}

/// The table covers at least 51330 days: every Gregorian date of the
/// supported window lies on the covered axis.
pub proof fn lemma_table_at_least()
    ensures
        month_start(1740) >= 51330,
{
    lemma_start_at_least(145);
}

/// Length of month 1 of year `y`, from the table.
fn month_len_c1_x(y: usize) -> (len: usize)
    requires
        1356 <= y <= 1500,
    ensures
        len == month_len_c1(y as int),
{
    match y {
        1356 => 29,
        1357 => 29,
        1358 => 29,
        1359 => 29,
        1360 => 29,
        1361 => 30,
        1362 => 29,
        1363 => 30,
        1364 => 29,
        1365 => 30,
        1366 => 30,
        1367 => 30,
        1368 => 29,
        1369 => 30,
        1370 => 30,
        1371 => 29,
        1372 => 30,
        1373 => 30,
        1374 => 30,
        1375 => 30,
        1376 => 29,
        1377 => 29,
        1378 => 30,
        1379 => 29,
        1380 => 29,
        1381 => 29,
        1382 => 29,
        1383 => 30,
        1384 => 29,
        1385 => 29,
        1386 => 30,
        1387 => 30,
        1388 => 30,
        1389 => 30,
        1390 => 29,
        1391 => 29,
        1392 => 30,
        1393 => 29,
        1394 => 30,
        1395 => 30,
        1396 => 30,
        1397 => 30,
        1398 => 29,
        1399 => 30,
        1400 => 30,
        1401 => 30,
        1402 => 30,
        1403 => 30,
        1404 => 29,
        1405 => 30,
        1406 => 30,
        1407 => 29,
        1408 => 30,
        1409 => 30,
        1410 => 30,
        1411 => 30,
        1412 => 30,
        1413 => 29,
        1414 => 30,
        1415 => 29,
        1416 => 30,
        1417 => 30,
        1418 => 30,
        1419 => 29,
        1420 => 29,
        1421 => 29,
        1422 => 30,
        1423 => 30,
        1424 => 30,
        1425 => 30,
        1426 => 29,
        1427 => 29,
        1428 => 30,
        1429 => 29,
        1430 => 29,
        1431 => 29,
        1432 => 29,
        1433 => 30,
        1434 => 29,
        1435 => 30,
        1436 => 29,
        1437 => 30,
        1438 => 30,
        1439 => 30,
        1440 => 29,
        1441 => 30,
        1442 => 29,
        1443 => 30,
        1444 => 29,
        1445 => 29,
        1446 => 29,
        1447 => 30,
        1448 => 29,
        1449 => 29,
        1450 => 30,
        1451 => 30,
        1452 => 30,
        1453 => 30,
        1454 => 30,
        1455 => 29,
        1456 => 29,
        1457 => 30,
        1458 => 29,
        1459 => 29,
        1460 => 29,
        1461 => 29,
        1462 => 30,
        1463 => 29,
        1464 => 29,
        1465 => 30,
        1466 => 30,
        1467 => 30,
        1468 => 29,
        1469 => 29,
        1470 => 29,
        1471 => 30,
        1472 => 29,
        1473 => 29,
        1474 => 29,
        1475 => 29,
        1476 => 30,
        1477 => 29,
        1478 => 29,
        1479 => 30,
        1480 => 30,
        1481 => 30,
        1482 => 30,
        1483 => 29,
        1484 => 29,
        1485 => 30,
        1486 => 29,
        1487 => 30,
        1488 => 30,
        1489 => 30,
        1490 => 29,
        1491 => 30,
        1492 => 29,
        1493 => 30,
        1494 => 29,
        1495 => 29,
        1496 => 29,
        1497 => 30,
        1498 => 29,
        1499 => 30,
        1500 => 29,
        _ => 29,
    }
}

/// Every entry of this month's column is 29 or 30.
proof fn lemma_month_len_c1_range(y: int)
    ensures
        29 <= month_len_c1(y) <= 30,
{
}

/// Length of month 2 of year `y`, from the table.
fn month_len_c2_x(y: usize) -> (len: usize)
    requires
        1356 <= y <= 1500,
    ensures
        len == month_len_c2(y as int),
{
    match y {
        1356 => 30,
        1357 => 29,
        1358 => 30,
        1359 => 30,
        1360 => 30,
        1361 => 29,
        1362 => 30,
        1363 => 29,
        1364 => 30,
        1365 => 30,
        1366 => 30,
        1367 => 30,
        1368 => 30,
        1369 => 29,
        1370 => 29,
        1371 => 30,
        1372 => 29,
        1373 => 29,
        1374 => 29,
        1375 => 29,
        1376 => 30,
        1377 => 29,
        1378 => 29,
        1379 => 30,
        1380 => 30,
        1381 => 30,
        1382 => 30,
        1383 => 29,
        1384 => 30,
        1385 => 29,
        1386 => 29,
        1387 => 29,
        1388 => 30,
        1389 => 30,
        1390 => 30,
        1391 => 29,
        1392 => 29,
        1393 => 30,
        1394 => 29,
        1395 => 29,
        1396 => 29,
        1397 => 29,
        1398 => 30,
        1399 => 29,
        1400 => 29,
        1401 => 30,
        1402 => 30,
        1403 => 30,
        1404 => 30,
        1405 => 29,
        1406 => 29,
        1407 => 30,
        1408 => 29,
        1409 => 30,
        1410 => 30,
        1411 => 30,
        1412 => 29,
        1413 => 30,
        1414 => 29,
        1415 => 30,
        1416 => 29,
        1417 => 29,
        1418 => 29,
        1419 => 30,
        1420 => 30,
        1421 => 29,
        1422 => 29,
        1423 => 29,
        1424 => 29,
        1425 => 29,
        1426 => 30,
        1427 => 29,
        1428 => 29,
        1429 => 30,
        1430 => 30,
        1431 => 30,
        1432 => 30,
        1433 => 29,
        1434 => 30,
        1435 => 29,
        1436 => 30,
        1437 => 29,
        1438 => 29,
        1439 => 29,
        1440 => 30,
        1441 => 29,
        1442 => 30,
        1443 => 29,
        1444 => 30,
        1445 => 30,
        1446 => 30,
        1447 => 29,
        1448 => 30,
        1449 => 29,
        1450 => 29,
        1451 => 30,
        1452 => 29,
        1453 => 29,
        1454 => 29,
        1455 => 30,
        1456 => 29,
        1457 => 29,
        1458 => 30,
        1459 => 30,
        1460 => 30,
        1461 => 30,
        1462 => 29,
        1463 => 30,
        1464 => 30,
        1465 => 29,
        1466 => 30,
        1467 => 30,
        1468 => 30,
        1469 => 30,
        1470 => 29,
        1471 => 29,
        1472 => 30,
        1473 => 30,
        1474 => 30,
        1475 => 30,
        1476 => 29,
        1477 => 30,
        1478 => 29,
        1479 => 29,
        1480 => 29,
        1481 => 29,
        1482 => 29,
        1483 => 30,
        1484 => 29,
        1485 => 29,
        1486 => 30,
        1487 => 29,
        1488 => 29,
        1489 => 29,
        1490 => 30,
        1491 => 29,
        1492 => 30,
        1493 => 29,
        1494 => 30,
        1495 => 30,
        1496 => 30,
        1497 => 29,
        1498 => 30,
        1499 => 29,
        1500 => 30,
        _ => 29,
    }
}

/// Every entry of this month's column is 29 or 30.
proof fn lemma_month_len_c2_range(y: int)
    ensures
        29 <= month_len_c2(y) <= 30,
{
}

/// Length of month 3 of year `y`, from the table.
fn month_len_c3_x(y: usize) -> (len: usize)
    requires
        1356 <= y <= 1500,
    ensures
        len == month_len_c3(y as int),
{
    match y {
        1356 => 29,
        1357 => 30,
        1358 => 29,
        1359 => 30,
        1360 => 30,
        1361 => 30,
        1362 => 29,
        1363 => 30,
        1364 => 29,
        1365 => 29,
        1366 => 29,
        1367 => 29,
        1368 => 29,
        1369 => 30,
        1370 => 29,
        1371 => 29,
        1372 => 29,
        1373 => 30,
        1374 => 30,
        1375 => 30,
        1376 => 29,
        1377 => 30,
        1378 => 29,
        1379 => 29,
        1380 => 29,
        1381 => 29,
        1382 => 29,
        1383 => 29,
        1384 => 29,
        1385 => 30,
        1386 => 29,
        1387 => 30,
        1388 => 29,
        1389 => 29,
        1390 => 29,
        1391 => 30,
        1392 => 29,
        1393 => 29,
        1394 => 30,
        1395 => 30,
        1396 => 30,
        1397 => 30,
        1398 => 29,
        1399 => 30,
        1400 => 30,
        1401 => 29,
        1402 => 30,
        1403 => 30,
        1404 => 30,
        1405 => 30,
        1406 => 29,
        1407 => 29,
        1408 => 30,
        1409 => 29,
        1410 => 29,
        1411 => 29,
        1412 => 30,
        1413 => 29,
        1414 => 30,
        1415 => 29,
        1416 => 30,
        1417 => 30,
        1418 => 30,
        1419 => 29,
        1420 => 29,
        1421 => 30,
        1422 => 29,
        1423 => 30,
        1424 => 30,
        1425 => 30,
        1426 => 29,
        1427 => 30,
        1428 => 29,
        1429 => 29,
        1430 => 30,
        1431 => 30,
        1432 => 30,
        1433 => 30,
        1434 => 29,
        1435 => 30,
        1436 => 29,
        1437 => 30,
        1438 => 30,
        1439 => 30,
        1440 => 29,
        1441 => 30,
        1442 => 29,
        1443 => 30,
        1444 => 29,
        1445 => 30,
        1446 => 30,
        1447 => 30,
        1448 => 29,
        1449 => 30,
        1450 => 30,
        1451 => 30,
        1452 => 30,
        1453 => 30,
        1454 => 30,
        1455 => 29,
        1456 => 30,
        1457 => 29,
        1458 => 29,
        1459 => 30,
        1460 => 30,
        1461 => 30,
        1462 => 30,
        1463 => 29,
        1464 => 29,
        1465 => 30,
        1466 => 29,
        1467 => 29,
        1468 => 29,
        1469 => 29,
        1470 => 30,
        1471 => 29,
        1472 => 29,
        1473 => 29,
        1474 => 30,
        1475 => 30,
        1476 => 30,
        1477 => 29,
        1478 => 30,
        1479 => 29,
        1480 => 30,
        1481 => 30,
        1482 => 30,
        1483 => 29,
        1484 => 30,
        1485 => 29,
        1486 => 29,
        1487 => 30,
        1488 => 30,
        1489 => 30,
        1490 => 29,
        1491 => 29,
        1492 => 29,
        1493 => 30,
        1494 => 29,
        1495 => 30,
        1496 => 30,
        1497 => 30,
        1498 => 29,
        1499 => 30,
        1500 => 29,
        _ => 29,
    }
}

/// Every entry of this month's column is 29 or 30.
proof fn lemma_month_len_c3_range(y: int)
    ensures
        29 <= month_len_c3(y) <= 30,
{
}

/// Length of month 4 of year `y`, from the table.
fn month_len_c4_x(y: usize) -> (len: usize)
    requires
        1356 <= y <= 1500,
    ensures
        len == month_len_c4(y as int),
{
    match y {
        1356 => 30,
        1357 => 29,
        1358 => 30,
        1359 => 29,
        1360 => 30,
        1361 => 30,
        1362 => 30,
        1363 => 29,
        1364 => 30,
        1365 => 29,
        1366 => 30,
        1367 => 30,
        1368 => 30,
        1369 => 29,
        1370 => 30,
        1371 => 29,
        1372 => 30,
        1373 => 29,
        1374 => 30,
        1375 => 30,
        1376 => 30,
        1377 => 29,
        1378 => 29,
        1379 => 29,
        1380 => 30,
        1381 => 30,
        1382 => 30,
        1383 => 30,
        1384 => 29,
        1385 => 29,
        1386 => 30,
        1387 => 29,
        1388 => 30,
        1389 => 30,
        1390 => 30,
        1391 => 29,
        1392 => 30,
        1393 => 29,
        1394 => 29,
        1395 => 30,
        1396 => 30,
        1397 => 30,
        1398 => 30,
        1399 => 29,
        1400 => 29,
        1401 => 30,
        1402 => 29,
        1403 => 29,
        1404 => 29,
        1405 => 29,
        1406 => 30,
        1407 => 29,
        1408 => 29,
        1409 => 30,
        1410 => 30,
        1411 => 30,
        1412 => 29,
        1413 => 29,
        1414 => 29,
        1415 => 30,
        1416 => 29,
        1417 => 30,
        1418 => 30,
        1419 => 30,
        1420 => 29,
        1421 => 29,
        1422 => 30,
        1423 => 29,
        1424 => 30,
        1425 => 30,
        1426 => 30,
        1427 => 29,
        1428 => 30,
        1429 => 29,
        1430 => 29,
        1431 => 29,
        1432 => 30,
        1433 => 30,
        1434 => 30,
        1435 => 29,
        1436 => 30,
        1437 => 30,
        1438 => 30,
        1439 => 30,
        1440 => 30,
        1441 => 29,
        1442 => 30,
        1443 => 29,
        1444 => 30,
        1445 => 30,
        1446 => 30,
        1447 => 30,
        1448 => 30,
        1449 => 29,
        1450 => 29,
        1451 => 29,
        1452 => 30,
        1453 => 30,
        1454 => 30,
        1455 => 30,
        1456 => 29,
        1457 => 30,
        1458 => 29,
        1459 => 29,
        1460 => 29,
        1461 => 29,
        1462 => 29,
        1463 => 30,
        1464 => 29,
        1465 => 29,
        1466 => 30,
        1467 => 30,
        1468 => 30,
        1469 => 30,
        1470 => 29,
        1471 => 30,
        1472 => 29,
        1473 => 30,
        1474 => 29,
        1475 => 29,
        1476 => 29,
        1477 => 29,
        1478 => 29,
        1479 => 30,
        1480 => 29,
        1481 => 30,
        1482 => 30,
        1483 => 30,
        1484 => 29,
        1485 => 30,
        1486 => 29,
        1487 => 29,
        1488 => 30,
        1489 => 30,
        1490 => 30,
        1491 => 30,
        1492 => 29,
        1493 => 29,
        1494 => 30,
        1495 => 29,
        1496 => 30,
        1497 => 30,
        1498 => 30,
        1499 => 29,
        1500 => 30,
        _ => 29,
    }
}

/// Every entry of this month's column is 29 or 30.
proof fn lemma_month_len_c4_range(y: int)
    ensures
        29 <= month_len_c4(y) <= 30,
{
}

/// Length of month 5 of year `y`, from the table.
fn month_len_c5_x(y: usize) -> (len: usize)
    requires
        1356 <= y <= 1500,
    ensures
        len == month_len_c5(y as int),
{
    match y {
        1356 => 29,
        1357 => 30,
        1358 => 29,
        1359 => 30,
        1360 => 29,
        1361 => 29,
        1362 => 29,
        1363 => 30,
        1364 => 29,
        1365 => 30,
        1366 => 29,
        1367 => 30,
        1368 => 30,
        1369 => 30,
        1370 => 29,
        1371 => 30,
        1372 => 29,
        1373 => 30,
        1374 => 29,
        1375 => 29,
        1376 => 29,
        1377 => 29,
        1378 => 30,
        1379 => 29,
        1380 => 29,
        1381 => 30,
        1382 => 30,
        1383 => 30,
        1384 => 30,
        1385 => 29,
        1386 => 29,
        1387 => 30,
        1388 => 29,
        1389 => 30,
        1390 => 30,
        1391 => 30,
        1392 => 29,
        1393 => 30,
        1394 => 29,
        1395 => 29,
        1396 => 29,
        1397 => 29,
        1398 => 30,
        1399 => 30,
        1400 => 29,
        1401 => 29,
        1402 => 30,
        1403 => 30,
        1404 => 30,
        1405 => 30,
        1406 => 29,
        1407 => 30,
        1408 => 30,
        1409 => 29,
        1410 => 30,
        1411 => 30,
        1412 => 30,
        1413 => 30,
        1414 => 29,
        1415 => 29,
        1416 => 30,
        1417 => 29,
        1418 => 29,
        1419 => 29,
        1420 => 30,
        1421 => 29,
        1422 => 29,
        1423 => 30,
        1424 => 29,
        1425 => 29,
        1426 => 29,
        1427 => 30,
        1428 => 29,
        1429 => 30,
        1430 => 29,
        1431 => 30,
        1432 => 29,
        1433 => 29,
        1434 => 29,
        1435 => 30,
        1436 => 29,
        1437 => 29,
        1438 => 30,
        1439 => 30,
        1440 => 30,
        1441 => 30,
        1442 => 29,
        1443 => 30,
        1444 => 30,
        1445 => 29,
        1446 => 29,
        1447 => 30,
        1448 => 30,
        1449 => 30,
        1450 => 29,
        1451 => 29,
        1452 => 29,
        1453 => 29,
        1454 => 29,
        1455 => 30,
        1456 => 30,
        1457 => 29,
        1458 => 30,
        1459 => 29,
        1460 => 30,
        1461 => 30,
        1462 => 30,
        1463 => 29,
        1464 => 30,
        1465 => 29,
        1466 => 29,
        1467 => 30,
        1468 => 30,
        1469 => 30,
        1470 => 30,
        1471 => 29,
        1472 => 30,
        1473 => 30,
        1474 => 30,
        1475 => 30,
        1476 => 30,
        1477 => 30,
        1478 => 30,
        1479 => 29,
        1480 => 30,
        1481 => 29,
        1482 => 30,
        1483 => 30,
        1484 => 30,
        1485 => 29,
        1486 => 30,
        1487 => 30,
        1488 => 29,
        1489 => 30,
        1490 => 30,
        1491 => 30,
        1492 => 30,
        1493 => 30,
        1494 => 29,
        1495 => 30,
        1496 => 29,
        1497 => 29,
        1498 => 29,
        1499 => 29,
        1500 => 29,
        _ => 29,
    }
}

/// Every entry of this month's column is 29 or 30.
proof fn lemma_month_len_c5_range(y: int)
    ensures
        29 <= month_len_c5(y) <= 30,
{
}

/// Length of month 6 of year `y`, from the table.
fn month_len_c6_x(y: usize) -> (len: usize)
    requires
        1356 <= y <= 1500,
    ensures
        len == month_len_c6(y as int),
{
    match y {
        1356 => 30,
        1357 => 29,
        1358 => 30,
        1359 => 29,
        1360 => 30,
        1361 => 30,
        1362 => 30,
        1363 => 29,
        1364 => 29,
        1365 => 29,
        1366 => 30,
        1367 => 29,
        1368 => 30,
        1369 => 30,
        1370 => 30,
        1371 => 29,
        1372 => 30,
        1373 => 29,
        1374 => 30,
        1375 => 30,
        1376 => 30,
        1377 => 30,
        1378 => 29,
        1379 => 30,
        1380 => 30,
        1381 => 29,
        1382 => 29,
        1383 => 30,
        1384 => 30,
        1385 => 30,
        1386 => 29,
        1387 => 29,
        1388 => 30,
        1389 => 29,
        1390 => 30,
        1391 => 30,
        1392 => 30,
        1393 => 29,
        1394 => 30,
        1395 => 30,
        1396 => 30,
        1397 => 30,
        1398 => 29,
        1399 => 29,
        1400 => 30,
        1401 => 29,
        1402 => 29,
        1403 => 30,
        1404 => 30,
        1405 => 30,
        1406 => 30,
        1407 => 29,
        1408 => 29,
        1409 => 30,
        1410 => 29,
        1411 => 29,
        1412 => 29,
        1413 => 29,
        1414 => 30,
        1415 => 29,
        1416 => 29,
        1417 => 29,
        1418 => 30,
        1419 => 30,
        1420 => 29,
        1421 => 29,
        1422 => 29,
        1423 => 29,
        1424 => 30,
        1425 => 30,
        1426 => 30,
        1427 => 29,
        1428 => 29,
        1429 => 29,
        1430 => 30,
        1431 => 29,
        1432 => 30,
        1433 => 30,
        1434 => 30,
        1435 => 29,
        1436 => 30,
        1437 => 29,
        1438 => 29,
        1439 => 29,
        1440 => 30,
        1441 => 30,
        1442 => 30,
        1443 => 29,
        1444 => 29,
        1445 => 30,
        1446 => 30,
        1447 => 29,
        1448 => 29,
        1449 => 29,
        1450 => 30,
        1451 => 30,
        1452 => 29,
        1453 => 30,
        1454 => 30,
        1455 => 29,
        1456 => 29,
        1457 => 29,
        1458 => 29,
        1459 => 30,
        1460 => 29,
        1461 => 29,
        1462 => 30,
        1463 => 30,
        1464 => 29,
        1465 => 30,
        1466 => 29,
        1467 => 29,
        1468 => 29,
        1469 => 29,
        1470 => 30,
        1471 => 30,
        1472 => 29,
        1473 => 29,
        1474 => 30,
        1475 => 30,
        1476 => 30,
        1477 => 30,
        1478 => 29,
        1479 => 30,
        1480 => 29,
        1481 => 30,
        1482 => 30,
        1483 => 30,
        1484 => 30,
        1485 => 30,
        1486 => 29,
        1487 => 29,
        1488 => 30,
        1489 => 29,
        1490 => 29,
        1491 => 29,
        1492 => 30,
        1493 => 29,
        1494 => 30,
        1495 => 29,
        1496 => 30,
        1497 => 30,
        1498 => 30,
        1499 => 30,
        1500 => 29,
        _ => 29,
    }
}

/// Every entry of this month's column is 29 or 30.
proof fn lemma_month_len_c6_range(y: int)
    ensures
        29 <= month_len_c6(y) <= 30,
{
}

/// Length of month 7 of year `y`, from the table.
fn month_len_c7_x(y: usize) -> (len: usize)
    requires
        1356 <= y <= 1500,
    ensures
        len == month_len_c7(y as int),
{
    match y {
        1356 => 29,
        1357 => 29,
        1358 => 29,
        1359 => 30,
        1360 => 29,
        1361 => 30,
        1362 => 30,
        1363 => 30,
        1364 => 30,
        1365 => 29,
        1366 => 29,
        1367 => 30,
        1368 => 29,
        1369 => 29,
        1370 => 29,
        1371 => 30,
        1372 => 29,
        1373 => 30,
        1374 => 29,
        1375 => 30,
        1376 => 30,
        1377 => 30,
        1378 => 30,
        1379 => 29,
        1380 => 29,
        1381 => 30,
        1382 => 30,
        1383 => 29,
        1384 => 29,
        1385 => 30,
        1386 => 30,
        1387 => 30,
        1388 => 29,
        1389 => 30,
        1390 => 29,
        1391 => 29,
        1392 => 29,
        1393 => 30,
        1394 => 29,
        1395 => 29,
        1396 => 30,
        1397 => 30,
        1398 => 30,
        1399 => 30,
        1400 => 29,
        1401 => 30,
        1402 => 29,
        1403 => 29,
        1404 => 29,
        1405 => 30,
        1406 => 30,
        1407 => 30,
        1408 => 29,
        1409 => 29,
        1410 => 30,
        1411 => 30,
        1412 => 30,
        1413 => 30,
        1414 => 29,
        1415 => 30,
        1416 => 29,
        1417 => 30,
        1418 => 29,
        1419 => 29,
        1420 => 30,
        1421 => 30,
        1422 => 29,
        1423 => 29,
        1424 => 29,
        1425 => 29,
        1426 => 30,
        1427 => 30,
        1428 => 30,
        1429 => 29,
        1430 => 29,
        1431 => 30,
        1432 => 29,
        1433 => 30,
        1434 => 30,
        1435 => 30,
        1436 => 29,
        1437 => 30,
        1438 => 29,
        1439 => 30,
        1440 => 29,
        1441 => 29,
        1442 => 29,
        1443 => 30,
        1444 => 29,
        1445 => 29,
        1446 => 30,
        1447 => 30,
        1448 => 30,
        1449 => 30,
        1450 => 29,
        1451 => 29,
        1452 => 30,
        1453 => 29,
        1454 => 30,
        1455 => 30,
        1456 => 30,
        1457 => 30,
        1458 => 29,
        1459 => 29,
        1460 => 30,
        1461 => 30,
        1462 => 29,
        1463 => 29,
        1464 => 29,
        1465 => 29,
        1466 => 29,
        1467 => 29,
        1468 => 30,
        1469 => 30,
        1470 => 29,
        1471 => 29,
        1472 => 30,
        1473 => 29,
        1474 => 29,
        1475 => 30,
        1476 => 30,
        1477 => 30,
        1478 => 30,
        1479 => 29,
        1480 => 30,
        1481 => 29,
        1482 => 29,
        1483 => 29,
        1484 => 30,
        1485 => 30,
        1486 => 30,
        1487 => 29,
        1488 => 29,
        1489 => 30,
        1490 => 30,
        1491 => 30,
        1492 => 29,
        1493 => 29,
        1494 => 29,
        1495 => 29,
        1496 => 29,
        1497 => 29,
        1498 => 30,
        1499 => 30,
        1500 => 30,
        _ => 29,
    }
}

/// Every entry of this month's column is 29 or 30.
proof fn lemma_month_len_c7_range(y: int)
    ensures
        29 <= month_len_c7(y) <= 30,
{
}

/// Length of month 8 of year `y`, from the table.
fn month_len_c8_x(y: usize) -> (len: usize)
    requires
        1356 <= y <= 1500,
    ensures
        len == month_len_c8(y as int),
{
    match y {
        1356 => 30,
        1357 => 30,
        1358 => 29,
        1359 => 29,
        1360 => 30,
        1361 => 29,
        1362 => 29,
        1363 => 29,
        1364 => 29,
        1365 => 30,
        1366 => 29,
        1367 => 29,
        1368 => 29,
        1369 => 30,
        1370 => 30,
        1371 => 29,
        1372 => 29,
        1373 => 29,
        1374 => 30,
        1375 => 29,
        1376 => 30,
        1377 => 30,
        1378 => 30,
        1379 => 30,
        1380 => 30,
        1381 => 29,
        1382 => 30,
        1383 => 30,
        1384 => 30,
        1385 => 29,
        1386 => 30,
        1387 => 29,
        1388 => 30,
        1389 => 30,
        1390 => 30,
        1391 => 30,
        1392 => 30,
        1393 => 29,
        1394 => 30,
        1395 => 29,
        1396 => 29,
        1397 => 30,
        1398 => 30,
        1399 => 30,
        1400 => 30,
        1401 => 29,
        1402 => 30,
        1403 => 29,
        1404 => 30,
        1405 => 29,
        1406 => 29,
        1407 => 29,
        1408 => 30,
        1409 => 29,
        1410 => 29,
        1411 => 30,
        1412 => 30,
        1413 => 30,
        1414 => 30,
        1415 => 29,
        1416 => 30,
        1417 => 29,
        1418 => 30,
        1419 => 30,
        1420 => 30,
        1421 => 30,
        1422 => 30,
        1423 => 30,
        1424 => 29,
        1425 => 30,
        1426 => 29,
        1427 => 30,
        1428 => 30,
        1429 => 30,
        1430 => 30,
        1431 => 29,
        1432 => 30,
        1433 => 29,
        1434 => 29,
        1435 => 29,
        1436 => 30,
        1437 => 29,
        1438 => 30,
        1439 => 29,
        1440 => 30,
        1441 => 30,
        1442 => 30,
        1443 => 29,
        1444 => 30,
        1445 => 29,
        1446 => 29,
        1447 => 29,
        1448 => 30,
        1449 => 30,
        1450 => 30,
        1451 => 29,
        1452 => 29,
        1453 => 30,
        1454 => 29,
        1455 => 29,
        1456 => 29,
        1457 => 29,
        1458 => 30,
        1459 => 29,
        1460 => 29,
        1461 => 29,
        1462 => 30,
        1463 => 30,
        1464 => 30,
        1465 => 29,
        1466 => 30,
        1467 => 30,
        1468 => 29,
        1469 => 30,
        1470 => 30,
        1471 => 30,
        1472 => 29,
        1473 => 30,
        1474 => 29,
        1475 => 29,
        1476 => 29,
        1477 => 30,
        1478 => 30,
        1479 => 30,
        1480 => 29,
        1481 => 30,
        1482 => 30,
        1483 => 30,
        1484 => 29,
        1485 => 29,
        1486 => 29,
        1487 => 30,
        1488 => 29,
        1489 => 29,
        1490 => 30,
        1491 => 30,
        1492 => 30,
        1493 => 30,
        1494 => 29,
        1495 => 30,
        1496 => 29,
        1497 => 30,
        1498 => 29,
        1499 => 29,
        1500 => 29,
        _ => 29,
    }
}

/// Every entry of this month's column is 29 or 30.
proof fn lemma_month_len_c8_range(y: int)
    ensures
        29 <= month_len_c8(y) <= 30,
{
}

/// Length of month 9 of year `y`, from the table.
fn month_len_c9_x(y: usize) -> (len: usize)
    requires
        1356 <= y <= 1500,
    ensures
        len == month_len_c9(y as int),
{
    match y {
        1356 => 29,
        1357 => 29,
        1358 => 30,
        1359 => 29,
        1360 => 29,
        1361 => 29,
        1362 => 30,
        1363 => 30,
        1364 => 30,
        1365 => 29,
        1366 => 30,
        1367 => 29,
        1368 => 30,
        1369 => 29,
        1370 => 29,
        1371 => 30,
        1372 => 30,
        1373 => 29,
        1374 => 29,
        1375 => 30,
        1376 => 29,
        1377 => 29,
        1378 => 29,
        1379 => 30,
        1380 => 29,
        1381 => 30,
        1382 => 29,
        1383 => 30,
        1384 => 30,
        1385 => 30,
        1386 => 29,
        1387 => 30,
        1388 => 29,
        1389 => 29,
        1390 => 29,
        1391 => 30,
        1392 => 30,
        1393 => 30,
        1394 => 29,
        1395 => 30,
        1396 => 29,
        1397 => 29,
        1398 => 29,
        1399 => 29,
        1400 => 29,
        1401 => 29,
        1402 => 29,
        1403 => 30,
        1404 => 29,
        1405 => 30,
        1406 => 30,
        1407 => 30,
        1408 => 29,
        1409 => 30,
        1410 => 29,
        1411 => 29,
        1412 => 30,
        1413 => 30,
        1414 => 30,
        1415 => 30,
        1416 => 29,
        1417 => 30,
        1418 => 29,
        1419 => 30,
        1420 => 30,
        1421 => 30,
        1422 => 30,
        1423 => 29,
        1424 => 30,
        1425 => 30,
        1426 => 30,
        1427 => 29,
        1428 => 30,
        1429 => 30,
        1430 => 29,
        1431 => 30,
        1432 => 29,
        1433 => 30,
        1434 => 30,
        1435 => 30,
        1436 => 29,
        1437 => 30,
        1438 => 29,
        1439 => 30,
        1440 => 29,
        1441 => 30,
        1442 => 30,
        1443 => 30,
        1444 => 29,
        1445 => 30,
        1446 => 29,
        1447 => 30,
        1448 => 29,
        1449 => 29,
        1450 => 29,
        1451 => 30,
        1452 => 29,
        1453 => 29,
        1454 => 30,
        1455 => 30,
        1456 => 30,
        1457 => 30,
        1458 => 29,
        1459 => 30,
        1460 => 29,
        1461 => 30,
        1462 => 29,
        1463 => 30,
        1464 => 30,
        1465 => 30,
        1466 => 29,
        1467 => 29,
        1468 => 30,
        1469 => 29,
        1470 => 30,
        1471 => 30,
        1472 => 30,
        1473 => 29,
        1474 => 30,
        1475 => 29,
        1476 => 30,
        1477 => 29,
        1478 => 29,
        1479 => 29,
        1480 => 30,
        1481 => 29,
        1482 => 29,
        1483 => 30,
        1484 => 30,
        1485 => 30,
        1486 => 30,
        1487 => 29,
        1488 => 30,
        1489 => 29,
        1490 => 29,
        1491 => 29,
        1492 => 29,
        1493 => 29,
        1494 => 29,
        1495 => 29,
        1496 => 30,
        1497 => 29,
        1498 => 30,
        1499 => 30,
        1500 => 30,
        _ => 29,
    }
}

/// Every entry of this month's column is 29 or 30.
proof fn lemma_month_len_c9_range(y: int)
    ensures
        29 <= month_len_c9(y) <= 30,
{
}

/// Length of month 10 of year `y`, from the table.
fn month_len_c10_x(y: usize) -> (len: usize)
    requires
        1356 <= y <= 1500,
    ensures
        len == month_len_c10(y as int),
{
    match y {
        1356 => 30,
        1357 => 30,
        1358 => 29,
        1359 => 29,
        1360 => 29,
        1361 => 30,
        1362 => 29,
        1363 => 29,
        1364 => 29,
        1365 => 30,
        1366 => 29,
        1367 => 30,
        1368 => 29,
        1369 => 30,
        1370 => 30,
        1371 => 29,
        1372 => 29,
        1373 => 30,
        1374 => 29,
        1375 => 29,
        1376 => 30,
        1377 => 30,
        1378 => 30,
        1379 => 29,
        1380 => 30,
        1381 => 29,
        1382 => 30,
        1383 => 29,
        1384 => 30,
        1385 => 30,
        1386 => 30,
        1387 => 29,
        1388 => 30,
        1389 => 29,
        1390 => 30,
        1391 => 29,
        1392 => 29,
        1393 => 29,
        1394 => 30,
        1395 => 29,
        1396 => 30,
        1397 => 29,
        1398 => 30,
        1399 => 30,
        1400 => 30,
        1401 => 30,
        1402 => 29,
        1403 => 29,
        1404 => 30,
        1405 => 29,
        1406 => 29,
        1407 => 29,
        1408 => 29,
        1409 => 29,
        1410 => 30,
        1411 => 29,
        1412 => 29,
        1413 => 29,
        1414 => 29,
        1415 => 29,
        1416 => 30,
        1417 => 29,
        1418 => 30,
        1419 => 30,
        1420 => 30,
        1421 => 30,
        1422 => 30,
        1423 => 30,
        1424 => 29,
        1425 => 29,
        1426 => 30,
        1427 => 30,
        1428 => 29,
        1429 => 29,
        1430 => 30,
        1431 => 29,
        1432 => 30,
        1433 => 29,
        1434 => 30,
        1435 => 30,
        1436 => 30,
        1437 => 29,
        1438 => 29,
        1439 => 29,
        1440 => 30,
        1441 => 29,
        1442 => 29,
        1443 => 29,
        1444 => 30,
        1445 => 29,
        1446 => 30,
        1447 => 29,
        1448 => 30,
        1449 => 30,
        1450 => 30,
        1451 => 30,
        1452 => 30,
        1453 => 29,
        1454 => 29,
        1455 => 30,
        1456 => 30,
        1457 => 30,
        1458 => 30,
        1459 => 29,
        1460 => 30,
        1461 => 30,
        1462 => 30,
        1463 => 30,
        1464 => 30,
        1465 => 30,
        1466 => 30,
        1467 => 30,
        1468 => 29,
        1469 => 30,
        1470 => 29,
        1471 => 29,
        1472 => 30,
        1473 => 30,
        1474 => 29,
        1475 => 30,
        1476 => 29,
        1477 => 30,
        1478 => 30,
        1479 => 30,
        1480 => 29,
        1481 => 30,
        1482 => 29,
        1483 => 29,
        1484 => 29,
        1485 => 30,
        1486 => 30,
        1487 => 30,
        1488 => 29,
        1489 => 30,
        1490 => 29,
        1491 => 30,
        1492 => 30,
        1493 => 30,
        1494 => 30,
        1495 => 29,
        1496 => 29,
        1497 => 30,
        1498 => 29,
        1499 => 29,
        1500 => 29,
        _ => 29,
    }
}

/// Every entry of this month's column is 29 or 30.
proof fn lemma_month_len_c10_range(y: int)
    ensures
        29 <= month_len_c10(y) <= 30,
{
}

/// Length of month 11 of year `y`, from the table.
fn month_len_c11_x(y: usize) -> (len: usize)
    requires
        1356 <= y <= 1500,
    ensures
        len == month_len_c11(y as int),
{
    match y {
        1356 => 30,
        1357 => 30,
        1358 => 30,
        1359 => 30,
        1360 => 30,
        1361 => 29,
        1362 => 30,
        1363 => 30,
        1364 => 30,
        1365 => 29,
        1366 => 30,
        1367 => 29,
        1368 => 30,
        1369 => 30,
        1370 => 30,
        1371 => 30,
        1372 => 30,
        1373 => 29,
        1374 => 30,
        1375 => 30,
        1376 => 29,
        1377 => 30,
        1378 => 30,
        1379 => 30,
        1380 => 29,
        1381 => 29,
        1382 => 29,
        1383 => 30,
        1384 => 29,
        1385 => 30,
        1386 => 30,
        1387 => 30,
        1388 => 29,
        1389 => 30,
        1390 => 29,
        1391 => 30,
        1392 => 30,
        1393 => 30,
        1394 => 29,
        1395 => 29,
        1396 => 29,
        1397 => 29,
        1398 => 29,
        1399 => 29,
        1400 => 29,
        1401 => 29,
        1402 => 30,
        1403 => 29,
        1404 => 29,
        1405 => 29,
        1406 => 30,
        1407 => 30,
        1408 => 30,
        1409 => 29,
        1410 => 29,
        1411 => 30,
        1412 => 29,
        1413 => 30,
        1414 => 30,
        1415 => 30,
        1416 => 29,
        1417 => 30,
        1418 => 29,
        1419 => 29,
        1420 => 29,
        1421 => 29,
        1422 => 29,
        1423 => 29,
        1424 => 30,
        1425 => 30,
        1426 => 29,
        1427 => 30,
        1428 => 30,
        1429 => 30,
        1430 => 29,
        1431 => 29,
        1432 => 29,
        1433 => 30,
        1434 => 29,
        1435 => 29,
        1436 => 29,
        1437 => 29,
        1438 => 30,
        1439 => 29,
        1440 => 29,
        1441 => 30,
        1442 => 30,
        1443 => 30,
        1444 => 29,
        1445 => 29,
        1446 => 29,
        1447 => 30,
        1448 => 29,
        1449 => 30,
        1450 => 30,
        1451 => 29,
        1452 => 29,
        1453 => 30,
        1454 => 30,
        1455 => 29,
        1456 => 30,
        1457 => 30,
        1458 => 30,
        1459 => 30,
        1460 => 29,
        1461 => 29,
        1462 => 30,
        1463 => 29,
        1464 => 29,
        1465 => 29,
        1466 => 30,
        1467 => 29,
        1468 => 30,
        1469 => 29,
        1470 => 30,
        1471 => 30,
        1472 => 29,
        1473 => 29,
        1474 => 30,
        1475 => 29,
        1476 => 30,
        1477 => 29,
        1478 => 30,
        1479 => 30,
        1480 => 30,
        1481 => 29,
        1482 => 30,
        1483 => 29,
        1484 => 30,
        1485 => 29,
        1486 => 29,
        1487 => 29,
        1488 => 30,
        1489 => 29,
        1490 => 30,
        1491 => 29,
        1492 => 30,
        1493 => 30,
        1494 => 30,
        1495 => 30,
        1496 => 29,
        1497 => 29,
        1498 => 30,
        1499 => 30,
        1500 => 30,
        _ => 29,
    }
}

/// Every entry of this month's column is 29 or 30.
proof fn lemma_month_len_c11_range(y: int)
    ensures
        29 <= month_len_c11(y) <= 30,
{
}

/// Length of month 12 of year `y`, from the table.
fn month_len_c12_x(y: usize) -> (len: usize)
    requires
        1356 <= y <= 1500,
    ensures
        len == month_len_c12(y as int),
{
    match y {
        1356 => 30,
        1357 => 30,
        1358 => 30,
        1359 => 30,
        1360 => 29,
        1361 => 30,
        1362 => 29,
        1363 => 30,
        1364 => 30,
        1365 => 30,
        1366 => 29,
        1367 => 30,
        1368 => 29,
        1369 => 29,
        1370 => 30,
        1371 => 30,
        1372 => 30,
        1373 => 30,
        1374 => 29,
        1375 => 29,
        1376 => 30,
        1377 => 29,
        1378 => 30,
        1379 => 30,
        1380 => 30,
        1381 => 30,
        1382 => 29,
        1383 => 29,
        1384 => 30,
        1385 => 29,
        1386 => 29,
        1387 => 29,
        1388 => 29,
        1389 => 29,
        1390 => 30,
        1391 => 29,
        1392 => 30,
        1393 => 30,
        1394 => 30,
        1395 => 30,
        1396 => 29,
        1397 => 30,
        1398 => 29,
        1399 => 30,
        1400 => 30,
        1401 => 30,
        1402 => 29,
        1403 => 30,
        1404 => 29,
        1405 => 30,
        1406 => 30,
        1407 => 30,
        1408 => 30,
        1409 => 30,
        1410 => 29,
        1411 => 29,
        1412 => 30,
        1413 => 29,
        1414 => 30,
        1415 => 30,
        1416 => 30,
        1417 => 29,
        1418 => 30,
        1419 => 29,
        1420 => 30,
        1421 => 30,
        1422 => 30,
        1423 => 30,
        1424 => 29,
        1425 => 29,
        1426 => 30,
        1427 => 29,
        1428 => 30,
        1429 => 30,
        1430 => 30,
        1431 => 30,
        1432 => 29,
        1433 => 29,
        1434 => 29,
        1435 => 30,
        1436 => 30,
        1437 => 30,
        1438 => 29,
        1439 => 30,
        1440 => 29,
        1441 => 29,
        1442 => 29,
        1443 => 30,
        1444 => 30,
        1445 => 30,
        1446 => 29,
        1447 => 29,
        1448 => 30,
        1449 => 29,
        1450 => 29,
        1451 => 30,
        1452 => 30,
        1453 => 29,
        1454 => 29,
        1455 => 30,
        1456 => 29,
        1457 => 30,
        1458 => 30,
        1459 => 30,
        1460 => 30,
        1461 => 29,
        1462 => 29,
        1463 => 30,
        1464 => 30,
        1465 => 30,
        1466 => 29,
        1467 => 30,
        1468 => 29,
        1469 => 30,
        1470 => 29,
        1471 => 30,
        1472 => 30,
        1473 => 30,
        1474 => 29,
        1475 => 29,
        1476 => 29,
        1477 => 30,
        1478 => 29,
        1479 => 29,
        1480 => 29,
        1481 => 29,
        1482 => 29,
        1483 => 30,
        1484 => 29,
        1485 => 30,
        1486 => 30,
        1487 => 30,
        1488 => 29,
        1489 => 30,
        1490 => 29,
        1491 => 30,
        1492 => 29,
        1493 => 30,
        1494 => 30,
        1495 => 30,
        1496 => 30,
        1497 => 30,
        1498 => 29,
        1499 => 30,
        1500 => 30,
        _ => 29,
    }
}

/// Every entry of this month's column is 29 or 30.
proof fn lemma_month_len_c12_range(y: int)
    ensures
        29 <= month_len_c12(y) <= 30,
{
}

/// Length in days of month `m` of Hijri year `y`, from the table.
pub fn month_length_x(y: usize, m: usize) -> (len: usize)
    requires
        1356 <= y <= 1500,
        1 <= m <= 12,
    ensures
        len == month_length(y as int, m as int),
        29 <= len <= 30,
{
    proof {
        lemma_month_length_range(y as int, m as int);
    }
    match m {
        1 => month_len_c1_x(y),
        2 => month_len_c2_x(y),
        3 => month_len_c3_x(y),
        4 => month_len_c4_x(y),
        5 => month_len_c5_x(y),
        6 => month_len_c6_x(y),
        7 => month_len_c7_x(y),
        8 => month_len_c8_x(y),
        9 => month_len_c9_x(y),
        10 => month_len_c10_x(y),
        11 => month_len_c11_x(y),
        _ => month_len_c12_x(y),
    }
}

/// Day number of the first day of month `m` of year `y`: the lengths of all
/// earlier table months, summed.
pub fn month_start_x(y: usize, m: usize) -> (s: usize)
    requires
        1356 <= y <= 1500,
        1 <= m <= 12,
    ensures
        s == month_start(month_index(y as int, m as int)),
{
    proof {
        lemma_month_index_bijective(y as int, m as int);
    }
    let end: usize = (y - 1356) * 12 + (m - 1);
    let mut i: usize = 0;
    let mut acc: usize = 0;
    while i < end
        invariant
            0 <= i <= end,
            end == month_index(y as int, m as int),
            end < 1740,
            acc == month_start(i as int),
            acc <= 30 * i,
        decreases end - i,
    {
        acc = acc + month_length_x(1356 + i / 12, 1 + i % 12);
        i = i + 1;
    }
    acc
}

/// Total number of days the table covers.
pub fn table_days() -> (t: usize)
    ensures
        t == month_start(1740),
        t <= 52200,
{
    let mut i: usize = 0;
    let mut acc: usize = 0;
    while i < 1740
        invariant
            0 <= i <= 1740,
            acc == month_start(i as int),
            acc <= 30 * i,
        decreases 1740 - i,
    {
        acc = acc + month_length_x(1356 + i / 12, 1 + i % 12);
        i = i + 1;
    }
    acc
}

/// Finds the month that contains day number `n`: the unique table month
/// whose half-open day-number interval holds `n`, together with the day of
/// the month that `n` denotes.
pub fn month_of_day(n: usize) -> (r: (usize, usize, usize))
    requires
        n < month_start(1740),
    ensures
        1356 <= r.0 <= 1500,
        1 <= r.1 <= 12,
        1 <= r.2 <= month_length(r.0 as int, r.1 as int),
        month_start(month_index(r.0 as int, r.1 as int)) + r.2 - 1 == n,
{
    proof {
        lemma_month_start_monotone(0, 1740);
    }
    let mut i: usize = 0;
    let mut acc: usize = 0;
    loop
        invariant
            0 <= i < 1740,
            acc == month_start(i as int),
            acc <= n,
            n < month_start(1740),
            month_start(1740) <= 52200,
        decreases 1740 - i,
    {
        let len = month_length_x(1356 + i / 12, 1 + i % 12);
        if acc + len <= n {
            proof {
                if i as int + 1 >= 1740 {
                    lemma_month_start_monotone(1740, i as int + 1);
                }
            }
            acc = acc + len;
            i = i + 1;
        } else {
            let y: usize = 1356 + i / 12;
            let m: usize = 1 + i % 12;
            let d: usize = n - acc + 1;
            proof {
                vstd::arithmetic::div_mod::lemma_fundamental_div_mod(i as int, 12);
                assert(month_index(y as int, m as int) == i as int);
            }
            return (y, m, d);
        }
    }
}

} // verus!
